//! Unsigned numbers in base ten.

use vstd::prelude::*;

verus! {

/// Whether `c` is one of the ten ASCII digits.
pub open spec fn is_digit(c: char) -> bool {
    '0' <= c <= '9'
}

/// The number that the digit `c` stands for.
pub open spec fn digit_value(c: char) -> nat {
    (c as int - '0' as int) as nat
}

/// The digit that stands for `d`, which is below ten.
pub open spec fn digit_char(d: nat) -> char {
    (('0' as int + d) as u8) as char
}

/// Whether `s` holds digits only.
pub open spec fn all_digits(s: Seq<char>) -> bool {
    forall|i: int| 0 <= i < s.len() ==> is_digit(#[trigger] s[i])
}

/// The number that a sequence of digits stands for, the most significant
/// digit first. The empty sequence stands for zero.
pub open spec fn digits_value(s: Seq<char>) -> nat
    decreases s.len(),
{
    if s.len() == 0 {
        0
    } else {
        digits_value(s.drop_last()) * 10 + digit_value(s.last())
    }
}

/// The digits of `n` without leading zeros; zero is written `0`.
pub open spec fn decimal_text(n: nat) -> Seq<char>
    decreases n,
{
    if n < 10 {
        seq![digit_char(n)]
    } else {
        decimal_text(n / 10).push(digit_char(n % 10))
    }
}

/// What is left of `s` behind a leading plus sign, or `s` itself where it
/// has none.
pub open spec fn unsigned_part(s: Seq<char>) -> Seq<char> {
    if s.len() > 0 && s[0] == '+' {
        s.skip(1)
    } else {
        s
    }
}

/// The 32-bit number that `s` stands for: an optional plus sign, then one or
/// more digits whose value is at most `u32::MAX`. Any other text stands for
/// no number.
pub open spec fn parsed_u32(s: Seq<char>) -> Option<u32> {
    let digits = unsigned_part(s);
    if digits.len() > 0 && all_digits(digits) && digits_value(digits) <= u32::MAX {
        Some(digits_value(digits) as u32)
    } else {
        None
    }
}

/// The text of a number is made of digits, and stands for that number.
pub proof fn lemma_decimal_text_is_digits(n: nat)
    ensures
        decimal_text(n).len() > 0,
        all_digits(decimal_text(n)),
        digits_value(decimal_text(n)) == n,
    decreases n,
{
    if n < 10 {
        let s = decimal_text(n);
        assert(s.drop_last() =~= Seq::<char>::empty());
        assert(digits_value(s.drop_last()) == 0);
    } else {
        lemma_decimal_text_is_digits(n / 10);
        let s = decimal_text(n);
        assert(s.drop_last() =~= decimal_text(n / 10));
    }
}

/// Reading back the text of a 32-bit number gives that number.
pub proof fn lemma_decimal_round_trip(n: u32)
    ensures
        parsed_u32(decimal_text(n as nat)) == Some(n),
{
    lemma_decimal_text_is_digits(n as nat);
    assert(is_digit(decimal_text(n as nat)[0]));
}

/// The text of one digit.
fn digit_str(d: u32) -> (s: &'static str)
    requires
        d < 10,
    ensures
        s@ == seq![digit_char(d as nat)],
{
    proof {
        reveal_strlit("0");
        reveal_strlit("1");
        reveal_strlit("2");
        reveal_strlit("3");
        reveal_strlit("4");
        reveal_strlit("5");
        reveal_strlit("6");
        reveal_strlit("7");
        reveal_strlit("8");
        reveal_strlit("9");
    }
    let s = if d == 0 {
        "0"
    } else if d == 1 {
        "1"
    } else if d == 2 {
        "2"
    } else if d == 3 {
        "3"
    } else if d == 4 {
        "4"
    } else if d == 5 {
        "5"
    } else if d == 6 {
        "6"
    } else if d == 7 {
        "7"
    } else if d == 8 {
        "8"
    } else {
        "9"
    };
    assert(s@ =~= seq![digit_char(d as nat)]);
    s
}

/// Writes `n` in base ten, without leading zeros.
pub fn format_u32(n: u32) -> (text: String)
    ensures
        text@ == decimal_text(n as nat),
    decreases n,
{
    if n < 10 {
        digit_str(n).to_owned()
    } else {
        let mut text = format_u32(n / 10);
        text.append(digit_str(n % 10));
        text
    }
}

/// Reads a number in base ten: an optional plus sign, then digits.
pub fn parse_u32(text: &str) -> (number: Option<u32>)
    ensures
        number == parsed_u32(text@),
{
    let mut value: u32 = 0;
    let mut first = true;
    let mut empty = true;
    let mut valid = true;
    let mut fits = true;
    for c in it: text.chars()
        invariant
            it.seq() == text@,
            first == (it.index() == 0),
            empty == (unsigned_part(text@.take(it.index() as int)).len() == 0),
            valid == all_digits(unsigned_part(text@.take(it.index() as int))),
            valid && fits ==> value == digits_value(unsigned_part(text@.take(it.index() as int))),
            valid && !fits ==> digits_value(unsigned_part(text@.take(it.index() as int))) > u32::MAX,
    {
        let ghost before = unsigned_part(text@.take(it.index() as int));
        let ghost after = unsigned_part(text@.take(it.index() + 1));
        if first && c == '+' {
            assert(after =~= Seq::<char>::empty());
        } else {
            assert(after =~= before.push(c));
            assert(after.drop_last() =~= before);
            if '0' <= c && c <= '9' {
                let d: u32 = c as u32 - '0' as u32;
                if valid && fits {
                    if value > (u32::MAX - d) / 10 {
                        fits = false;
                    } else {
                        value = value * 10 + d;
                    }
                }
                assert(valid ==> all_digits(after)) by {
                    if valid {
                        assert forall|i: int| 0 <= i < after.len() implies is_digit(
                            #[trigger] after[i],
                        ) by {
                            if i < before.len() {
                                assert(is_digit(before[i]));
                            }
                        }
                    }
                }
                assert(!valid ==> !all_digits(after)) by {
                    if !valid {
                        let i = choose|i: int| 0 <= i < before.len() && !is_digit(before[i]);
                        assert(!is_digit(after[i]));
                    }
                }
            } else {
                valid = false;
                assert(!is_digit(after[after.len() - 1]));
            }
            empty = false;
        }
        first = false;
    }
    assert(text@.take(text@.len() as int) =~= text@);
    if valid && fits && !empty {
        Some(value)
    } else {
        None
    }
}

} // verus!
