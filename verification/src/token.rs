//! Correlation tokens.

use vstd::prelude::*;

verus! {

/// The identifier that the caller issues for one row before the table is
/// processed. It links the row that went in to the row that comes out and
/// says nothing else of either. The library treats it as text and copies
/// it unchanged.
#[derive(Debug, PartialEq, Eq)]
pub struct CorrelationToken {
    text: String,
}

impl View for CorrelationToken {
    type V = Seq<char>;

    /// The text of the token.
    closed spec fn view(&self) -> Seq<char> {
        self.text@
    }
}

/// The lower-case hexadecimal digit for `n`, which is below sixteen.
pub open spec fn hex_digit(n: nat) -> char {
    if n < 10 {
        (('0' as nat + n) as u8) as char
    } else {
        (('a' as nat + n - 10) as u8) as char
    }
}

/// The `k`-th of the 32 hexadecimal digits of `value`, counted from the most
/// significant one.
pub open spec fn hex_digit_at(value: u128, k: int) -> char {
    hex_digit(((value >> ((124 - 4 * k) as u128)) & 0xf) as nat)
}

/// The number of hyphens that stand before position `i` of a hyphenated
/// identifier.
pub open spec fn hyphens_before(i: int) -> int {
    if i < 8 {
        0
    } else if i < 13 {
        1
    } else if i < 18 {
        2
    } else if i < 23 {
        3
    } else {
        4
    }
}

/// The hyphenated form of a 128-bit identifier: its 32 lower-case
/// hexadecimal digits, most significant first, in groups of 8, 4, 4, 4 and
/// 12 with a hyphen between two groups.
pub open spec fn hyphenated(value: u128) -> Seq<char> {
    Seq::new(
        36,
        |i: int|
            if i == 8 || i == 13 || i == 18 || i == 23 {
                '-'
            } else {
                hex_digit_at(value, i - hyphens_before(i))
            },
    )
}

/// Formats `value` with `uuid::Uuid::from_u128` and the `Display` of
/// `uuid::Uuid`. The first stores the sixteen bytes of `value` from the most
/// significant down, the second writes each byte as two lower-case
/// hexadecimal digits and puts hyphens behind the digits 8, 12, 16 and 20:
/// that text is what the contract states.
#[verifier::external_body]
fn uuid_text(value: u128) -> (text: String)
    ensures
        text@ == hyphenated(value),
{
    uuid::Uuid::from_u128(value).to_string()
}

impl CorrelationToken {
    /// The token with the given text.
    pub fn new(text: &str) -> (token: CorrelationToken)
        ensures
            token@ == text@,
    {
        CorrelationToken { text: text.to_owned() }
    }

    /// The token for a 128-bit universally unique identifier, in hyphenated
    /// form.
    pub fn from_u128(value: u128) -> (token: CorrelationToken)
        ensures
            token@ == hyphenated(value),
    {
        CorrelationToken { text: uuid_text(value) }
    }

    /// The text of the token.
    pub fn as_str(&self) -> (text: &str)
        ensures
            text@ == self@,
    {
        self.text.as_str()
    }
}

} // verus!
