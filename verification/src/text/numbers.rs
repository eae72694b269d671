//! Reading unsigned numbers from text.

use crate::text::chars::chars_of;
use vstd::prelude::*;

verus! {

/// Whether a character is one of the digits `0` to `9`.
pub open spec fn is_ascii_digit(c: char) -> bool {
    '0' <= c && c <= '9'
}

/// Whether every character of a text is one of the digits `0` to `9`. An
/// empty text has no other character.
pub open spec fn all_ascii_digits(text: Seq<char>) -> bool {
    forall|i: int| 0 <= i < text.len() ==> is_ascii_digit(#[trigger] text[i])
}

/// The number that a digit stands for; zero for any other character.
pub open spec fn digit_value(c: char) -> nat {
    if is_ascii_digit(c) {
        (c as u32 - '0' as u32) as nat
    } else {
        0
    }
}

/// The number that a text of digits writes in base ten. Leading zeros do
/// not count, and the empty text writes zero.
pub open spec fn numeral_value(digits: Seq<char>) -> nat
    decreases digits.len(),
{
    if digits.len() == 0 {
        0
    } else {
        numeral_value(digits.drop_last()) * 10 + digit_value(digits.last())
    }
}

/// The text after an optional plus sign at its start.
pub open spec fn after_plus_sign(text: Seq<char>) -> Seq<char> {
    if text.len() > 0 && text[0] == '+' {
        text.drop_first()
    } else {
        text
    }
}

/// The number that a text writes, where it writes one that fits in 32 bits:
/// an optional plus sign followed by one digit or more, and nothing else.
pub open spec fn parsed_u32(text: Seq<char>) -> Option<u32> {
    let digits = after_plus_sign(text);
    if digits.len() > 0 && all_ascii_digits(digits) && numeral_value(digits) <= u32::MAX {
        Some(numeral_value(digits) as u32)
    } else {
        None
    }
}

/// A text writes a number at least as large as each of its beginnings.
pub proof fn lemma_numeral_value_grows(digits: Seq<char>, upto: int)
    requires
        0 <= upto <= digits.len(),
    ensures
        numeral_value(digits.take(upto)) <= numeral_value(digits),
    decreases digits.len() - upto,
{
    if upto < digits.len() {
        lemma_numeral_value_grows(digits, upto + 1);
        assert(digits.take(upto + 1).drop_last() =~= digits.take(upto));
    } else {
        assert(digits.take(upto) =~= digits);
    }
}

/// Whether a character is one of the digits `0` to `9`.
pub fn ascii_digit(c: char) -> (digit: bool)
    ensures
        digit == is_ascii_digit(c),
{
    c >= '0' && c <= '9'
}

/// Whether every character of a text is one of the digits `0` to `9`.
pub fn only_ascii_digits(text: &str) -> (all: bool)
    ensures
        all == all_ascii_digits(text@),
{
    let chars = chars_of(text);
    let mut i: usize = 0;
    while i < chars.len()
        invariant
            0 <= i <= chars.len(),
            chars@ == text@,
            forall|k: int| 0 <= k < i ==> is_ascii_digit(#[trigger] text@[k]),
        decreases chars.len() - i,
    {
        if !ascii_digit(chars[i]) {
            return false;
        }
        i = i + 1;
    }
    true
}

/// Reads an unsigned number of 32 bits from a text.
pub fn parse_u32(text: &str) -> (number: Option<u32>)
    ensures
        number == parsed_u32(text@),
{
    let chars = chars_of(text);
    let start: usize = if chars.len() > 0 && chars[0] == '+' {
        1
    } else {
        0
    };
    let ghost digits = after_plus_sign(text@);
    if start == chars.len() {
        return None;
    }
    let mut value: u64 = 0;
    let mut i: usize = start;
    while i < chars.len()
        invariant
            start <= i <= chars.len(),
            chars@ == text@,
            digits == after_plus_sign(text@),
            digits.len() == chars.len() - start,
            forall|k: int| 0 <= k < digits.len() ==> digits[k] == chars@[k + start],
            forall|k: int| 0 <= k < i - start ==> is_ascii_digit(#[trigger] digits[k]),
            value == numeral_value(digits.take(i - start)),
            value <= u32::MAX,
        decreases chars.len() - i,
    {
        let c = chars[i];
        assert(digits[i - start] == c);
        if !ascii_digit(c) {
            return None;
        }
        proof {
            assert(digits.take(i - start + 1).drop_last() =~= digits.take(i - start));
            assert(digits.take(i - start + 1).last() == c);
        }
        value = value * 10 + (c as u32 - '0' as u32) as u64;
        if value > u32::MAX as u64 {
            proof {
                lemma_numeral_value_grows(digits, i - start + 1);
            }
            return None;
        }
        i = i + 1;
    }
    assert(digits.take(i - start) =~= digits);
    Some(value as u32)
}

} // verus!
