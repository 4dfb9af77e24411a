//! Version numbers as the release sources write them.
//!
//! A version is an unsigned decimal number that fits in 32 bits: an optional `+`, then one
//! or more ASCII digits and nothing else. A release tag is such a number behind a
//! one-character marker, as in `v12`.
use vstd::prelude::*;

verus! {

/// An ASCII decimal digit.
pub open spec fn is_digit(c: char) -> bool {
    '0' <= c && c <= '9'
}

/// The number a digit stands for.
pub open spec fn digit_value(c: char) -> nat {
    (c as int - '0' as int) as nat
}

/// Whether `text` is made of decimal digits only.
pub open spec fn all_digits(text: Seq<char>) -> bool {
    forall|i: int| 0 <= i < text.len() ==> is_digit(#[trigger] text[i])
}

/// The number that a sequence of decimal digits denotes, most significant digit first.
pub open spec fn decimal_value(digits: Seq<char>) -> nat
    decreases digits.len(),
{
    if digits.len() == 0 {
        0
    } else {
        decimal_value(digits.drop_last()) * 10 + digit_value(digits.last())
    }
}

/// `text` without a leading `+`.
pub open spec fn without_sign(text: Seq<char>) -> Seq<char> {
    if text.len() > 0 && text[0] == '+' {
        text.skip(1)
    } else {
        text
    }
}

/// The version that `text` denotes, if it denotes one.
pub open spec fn version_of(text: Seq<char>) -> Option<u32> {
    let digits = without_sign(text);
    if digits.len() > 0 && all_digits(digits) && decimal_value(digits) <= u32::MAX {
        Some(decimal_value(digits) as u32)
    } else {
        None
    }
}

/// The version that a release tag denotes: what follows its first character.
pub open spec fn tag_version_of(tag: Seq<char>) -> Option<u32> {
    if tag.len() == 0 {
        None
    } else {
        version_of(tag.skip(1))
    }
}

/// A number never shrinks when digits are appended to it.
proof fn lemma_decimal_value_grows(digits: Seq<char>, n: int)
    requires
        0 <= n <= digits.len(),
    ensures
        decimal_value(digits.take(n)) <= decimal_value(digits),
    decreases digits.len() - n,
{
    if n == digits.len() {
        assert(digits.take(n) =~= digits);
    } else {
        lemma_decimal_value_grows(digits, n + 1);
        assert(digits.take(n + 1).drop_last() =~= digits.take(n));
    }
}

/// Reads a version number: an optional `+`, then decimal digits, and nothing else.
pub fn parse_version(text: &str) -> (version: Option<u32>)
    ensures
        version == version_of(text@),
{
    let ghost digits = without_sign(text@);
    let ghost mut seen: int = 0;
    let mut value: u32 = 0;
    let mut at_start = true;
    let mut any_digit = false;
    for c in it: text.chars()
        invariant
            it.seq() == text@,
            digits == without_sign(text@),
            at_start == (it.index() == 0),
            seen == it.index() - (text@.len() - digits.len()) || (seen == 0 && it.index() == 0),
            0 <= seen <= digits.len(),
            any_digit == (seen > 0),
            all_digits(digits.take(seen)),
            value == decimal_value(digits.take(seen)),
    {
        if at_start && c == '+' {
            at_start = false;
        } else {
            at_start = false;
            assert(c == digits[seen]);
            if !(c >= '0' && c <= '9') {
                assert(!all_digits(digits));
                return None;
            }
            let digit: u32 = (c as u32) - ('0' as u32);
            assert(digits.take(seen + 1).drop_last() =~= digits.take(seen));
            assert(digits.take(seen + 1).last() == c);
            proof {
                lemma_decimal_value_grows(digits, seen + 1);
            }
            if value > (u32::MAX - digit) / 10 {
                return None;
            }
            value = value * 10 + digit;
            any_digit = true;
            proof {
                seen = seen + 1;
            }
        }
    }
    assert(digits.take(seen) =~= digits);
    if any_digit {
        Some(value)
    } else {
        None
    }
}

/// Reads the version out of a release tag such as `v12`: drops the first character and
/// reads the rest as a version number.
pub fn parse_release_tag(tag: &str) -> (version: Option<u32>)
    ensures
        version == tag_version_of(tag@),
{
    let length = tag.unicode_len();
    if length == 0 {
        None
    } else {
        parse_version(tag.substring_char(1, length))
    }
}

} // verus!
