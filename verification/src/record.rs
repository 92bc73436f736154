//! Rows of text fields.

use vstd::prelude::*;

verus! {

/// A row of a table: its fields, in the order in which they were added.
#[derive(Debug, PartialEq, Eq)]
pub struct Record {
    fields: Vec<String>,
}

impl View for Record {
    type V = Seq<Seq<char>>;

    /// The fields of the row, each as its characters.
    closed spec fn view(&self) -> Seq<Seq<char>> {
        Seq::new(self.fields@.len(), |i: int| self.fields@[i]@)
    }
}

impl Record {
    /// A row without fields.
    pub fn new() -> (row: Record)
        ensures
            row@ == Seq::<Seq<char>>::empty(),
    {
        Record { fields: Vec::new() }
    }

    /// Adds `field` behind the fields that the row already has.
    pub fn push_field(&mut self, field: &str)
        ensures
            final(self)@ == old(self)@.push(field@),
    {
        self.fields.push(field.to_owned());
    }

    /// The field at `index`, where the row has one.
    pub fn get(&self, index: usize) -> (field: Option<&str>)
        ensures
            index < self@.len() ==> field.is_some() && field.unwrap()@ == self@[index as int],
            index >= self@.len() ==> field.is_none(),
    {
        if index < self.fields.len() {
            Some(self.fields[index].as_str())
        } else {
            None
        }
    }

    /// The number of fields in the row.
    pub fn len(&self) -> (n: usize)
        ensures
            n == self@.len(),
    {
        self.fields.len()
    }
}

} // verus!
