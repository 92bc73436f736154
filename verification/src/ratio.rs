//! Floating-point measurements, as text.

use vstd::prelude::*;

verus! {

/// A floating-point measurement of a patient record, held as the text that
/// stands for it in a row. Nothing in the de-identification rules reads or
/// changes such a measurement, so the library never looks into the text: it
/// carries it from the row that comes in to the row that goes out. Whoever
/// decodes a field of a row into a `Ratio` decides what text stands for the
/// number.
#[derive(Debug, PartialEq, Eq)]
pub struct Ratio {
    text: String,
}

impl View for Ratio {
    type V = Seq<char>;

    /// The text of the measurement.
    closed spec fn view(&self) -> Seq<char> {
        self.text@
    }
}

impl Ratio {
    /// The measurement that `text` stands for.
    pub fn new(text: &str) -> (ratio: Ratio)
        ensures
            ratio@ == text@,
    {
        Ratio { text: text.to_owned() }
    }

    /// The text of the measurement.
    pub fn as_str(&self) -> (text: &str)
        ensures
            text@ == self@,
    {
        self.text.as_str()
    }
}

} // verus!
