//! Base-ten numerals: the number that a digit string denotes, and the digit
//! string of a number.

use crate::classify::{is_digit, is_leading_digit};
use vstd::prelude::*;

verus! {

/// The value of a digit character.
pub open spec fn digit_value(c: char) -> nat
    recommends
        is_digit(c),
{
    (c as int - '0' as int) as nat
}

/// The character of a digit value.
pub open spec fn digit_char(d: nat) -> char
    recommends
        d < 10,
{
    (d + '0' as nat) as char
}

/// Whether every character of `text` is a decimal digit.
pub open spec fn all_digits(text: Seq<char>) -> bool {
    forall|k: int| 0 <= k < text.len() ==> is_digit(#[trigger] text[k])
}

/// The number that a digit string denotes in base ten, most significant
/// digit first. The empty string denotes zero.
pub open spec fn decimal_value(digits: Seq<char>) -> nat
    decreases digits.len(),
{
    if digits.len() == 0 {
        0
    } else {
        10 * decimal_value(digits.drop_last()) + digit_value(digits.last())
    }
}

/// The numeral of `n`: its digits in base ten, most significant first, with
/// no zero in front unless `n` is zero.
pub open spec fn numeral(n: nat) -> Seq<char>
    decreases n,
{
    if n < 10 {
        seq![digit_char(n)]
    } else {
        numeral(n / 10).push(digit_char(n % 10))
    }
}

/// The text of a signed integer: the numeral of its magnitude, after a minus
/// sign if it is negative.
pub open spec fn signed_numeral(n: int) -> Seq<char> {
    if n < 0 {
        seq!['-'] + numeral((-n) as nat)
    } else {
        numeral(n as nat)
    }
}

/// What parsing a digit string gives: its value, where the string is not
/// empty, holds digits only and denotes a number that an `i64` can hold.
pub open spec fn parsed(text: Seq<char>) -> Option<i64> {
    if text.len() > 0 && all_digits(text) && decimal_value(text) <= i64::MAX {
        Some(decimal_value(text) as i64)
    } else {
        None
    }
}

/// A digit string denotes at least as much as any of its prefixes.
pub proof fn lemma_prefix_value(digits: Seq<char>, k: int)
    requires
        0 <= k <= digits.len(),
    ensures
        decimal_value(digits.take(k)) <= decimal_value(digits),
    decreases digits.len(),
{
    if k == digits.len() {
        assert(digits.take(k) =~= digits);
    } else {
        assert(digits.drop_last().take(k) =~= digits.take(k));
        lemma_prefix_value(digits.drop_last(), k);
    }
}

/// The numeral of a number is a string of digits that denotes the number,
/// and it opens with a digit other than zero unless the number is zero.
pub proof fn lemma_numeral(n: nat)
    ensures
        numeral(n).len() > 0,
        all_digits(numeral(n)),
        decimal_value(numeral(n)) == n,
        n > 0 ==> is_leading_digit(numeral(n)[0]),
    decreases n,
{
    if n < 10 {
        assert(decimal_value(numeral(n).drop_last()) == 0);
    } else {
        lemma_numeral(n / 10);
        assert(numeral(n).drop_last() =~= numeral(n / 10));
    }
}

/// Parses a digit string as a 64-bit signed integer.
pub fn parse_decimal(text: &[char]) -> (r: Option<i64>)
    ensures
        r == parsed(text@),
{
    if text.len() == 0 {
        return None;
    }
    let mut value: i64 = 0;
    let mut k: usize = 0;
    while k < text.len()
        invariant
            k <= text@.len(),
            all_digits(text@.take(k as int)),
            value == decimal_value(text@.take(k as int)),
        decreases text@.len() - k,
    {
        let c = text[k];
        if !is_digit(c) {
            return None;
        }
        let d: i64 = (c as u32 - '0' as u32) as i64;
        proof {
            assert(text@.take(k + 1).drop_last() =~= text@.take(k as int));
            assert(text@.take(k + 1).last() == c);
            assert(decimal_value(text@.take(k + 1)) == 10 * value + d);
            lemma_prefix_value(text@, k + 1);
        }
        let next = match value.checked_mul(10) {
            Some(tens) => tens.checked_add(d),
            None => None,
        };
        match next {
            Some(v) => {
                value = v;
            },
            None => {
                return None;
            },
        }
        k += 1;
    }
    proof {
        assert(text@.take(k as int) =~= text@);
    }
    Some(value)
}

/// Appends the numeral of `n` to `text`.
pub fn push_numeral(text: &mut String, n: u64)
    ensures
        final(text)@ == old(text)@ + numeral(n as nat),
    decreases n,
{
    if n >= 10 {
        push_numeral(text, n / 10);
    }
    let d: u8 = (n % 10) as u8;
    text.push(('0' as u8 + d) as char);
}

/// Appends the text of a signed integer to `text`.
pub fn push_signed_numeral(text: &mut String, n: i64)
    ensures
        final(text)@ == old(text)@ + signed_numeral(n as int),
{
    if n < 0 {
        text.push('-');
        let magnitude: u64 = (-(n + 1)) as u64 + 1;
        push_numeral(text, magnitude);
    } else {
        push_numeral(text, n as u64);
    }
}

} // verus!
