//! Numbers as text.

use crate::text::{characters, joined};
use vstd::prelude::*;
use vstd::string::*;

verus! {

/// The decimal digit of a number below ten.
pub open spec fn digit(value: nat) -> char {
    "0123456789"@[value as int]
}

/// A number in decimal digits, without leading zeros.
pub open spec fn decimal(value: nat) -> Seq<char>
    decreases value,
{
    if value < 10 {
        seq![digit(value)]
    } else {
        decimal(value / 10).push(digit(value % 10))
    }
}

/// A number in decimal digits.
pub fn decimal_text(value: u64) -> (text: String)
    ensures
        text@ == decimal(value as nat),
    decreases value,
{
    proof {
        reveal_strlit("0123456789");
    }
    let digits = "0123456789";
    if value < 10 {
        let mut text = String::new();
        text.push(digits.get_char(value as usize));
        assert(text@ =~= decimal(value as nat));
        text
    } else {
        let mut text = decimal_text(value / 10);
        text.push(digits.get_char((value % 10) as usize));
        text
    }
}

/// A number in decimal digits, with a sign if it is below zero.
pub open spec fn signed_decimal(value: int) -> Seq<char> {
    if value < 0 {
        "-"@ + decimal((-value) as nat)
    } else {
        decimal(value as nat)
    }
}

/// A number in decimal digits, with a sign if it is below zero.
pub fn signed_text(value: i64) -> (text: String)
    ensures
        text@ == signed_decimal(value as int),
{
    if value < 0 {
        // The lowest number has no counterpart above zero.
        let below: i64 = -(value + 1);
        joined("-", &decimal_text(below as u64 + 1))
    } else {
        decimal_text(value as u64)
    }
}

/// Whether a character is a decimal digit.
pub open spec fn is_digit(c: char) -> bool {
    '0' <= c <= '9'
}

/// The number that decimal digits denote.
pub open spec fn digits_value(digits: Seq<char>) -> nat
    decreases digits.len(),
{
    if digits.len() == 0 {
        0
    } else {
        (digits_value(digits.drop_last()) * 10 + (digits.last() as u32 - '0' as u32)) as nat
    }
}

/// The digits of a number in text: all of it, but for a plus sign at the front.
pub open spec fn unsigned_digits(text: Seq<char>) -> Seq<char> {
    if text.len() > 0 && text[0] == '+' {
        text.drop_first()
    } else {
        text
    }
}

/// The number that a text denotes: digits only, at least one, behind a plus sign or none, and not
/// too large.
pub open spec fn unsigned_number(text: Seq<char>) -> Option<u64> {
    let digits = unsigned_digits(text);
    if digits.len() > 0 && (forall|i: int| 0 <= i < digits.len() ==> is_digit(#[trigger] digits[i]))
        && digits_value(digits) <= u64::MAX {
        Some(digits_value(digits) as u64)
    } else {
        None
    }
}

proof fn lemma_prefix_value(digits: Seq<char>, n: int)
    requires
        0 <= n <= digits.len(),
        forall|i: int| 0 <= i < digits.len() ==> is_digit(#[trigger] digits[i]),
    ensures
        digits_value(digits.take(n)) <= digits_value(digits),
    decreases digits.len() - n,
{
    if n == digits.len() {
        assert(digits.take(n) =~= digits);
    } else {
        lemma_prefix_value(digits, n + 1);
        assert(digits.take(n + 1).drop_last() =~= digits.take(n));
        assert(is_digit(digits[n]));
        assert(digits_value(digits.take(n + 1)) >= digits_value(digits.take(n)) * 10);
    }
}

/// The number that a text denotes, if it denotes one.
pub fn parse_unsigned(text: &str) -> (number: Option<u64>)
    ensures
        number == unsigned_number(text@),
{
    let all = characters(text);
    let start: usize = if all.len() > 0 && all[0] == '+' {
        1
    } else {
        0
    };
    let ghost digits = unsigned_digits(text@);
    assert(digits =~= all@.skip(start as int));
    if start == all.len() {
        return None;
    }
    let mut value: u64 = 0;
    let mut index: usize = start;
    assert(digits.take(0) =~= Seq::empty());
    while index < all.len()
        invariant
            all@ == text@,
            digits == unsigned_digits(text@),
            digits == all@.skip(start as int),
            start <= index <= all.len(),
            start < all.len(),
            value == digits_value(digits.take(index - start)),
            forall|i: int| 0 <= i < index - start ==> is_digit(#[trigger] digits[i]),
        decreases all.len() - index,
    {
        let c = all[index];
        let ghost at = index - start;
        assert(digits[at] == c);
        if c < '0' || c > '9' {
            assert(!is_digit(digits[at]));
            return None;
        }
        let step: u64 = (c as u32 - '0' as u32) as u64;
        proof {
            assert(digits.take(at + 1).drop_last() =~= digits.take(at));
            assert(digits_value(digits.take(at + 1)) == value * 10 + step);
            if value * 10 + step > u64::MAX {
                if forall|i: int| 0 <= i < digits.len() ==> is_digit(#[trigger] digits[i]) {
                    lemma_prefix_value(digits, at + 1);
                }
            }
        }
        value = match value.checked_mul(10) {
            Some(shifted) => match shifted.checked_add(step) {
                Some(next) => next,
                None => {
                    return None;
                },
            },
            None => {
                return None;
            },
        };
        index += 1;
    }
    assert(digits.take(index - start) =~= digits);
    Some(value)
}

proof fn lemma_decimal_digits(value: nat)
    ensures
        decimal(value).len() > 0,
        forall|i: int| 0 <= i < decimal(value).len() ==> is_digit(#[trigger] decimal(value)[i]),
        digits_value(decimal(value)) == value,
    decreases value,
{
    reveal_strlit("0123456789");
    reveal_with_fuel(digits_value, 2);
    if value < 10 {
        assert(decimal(value).drop_last() =~= Seq::empty());
    } else {
        lemma_decimal_digits(value / 10);
        assert(decimal(value).drop_last() =~= decimal(value / 10));
    }
}

/// A number that is written out reads back as itself.
pub proof fn written_number_reads_back(value: u64)
    ensures
        unsigned_number(decimal(value as nat)) == Some(value),
{
    lemma_decimal_digits(value as nat);
    assert(is_digit(decimal(value as nat)[0]));
}

} // verus!
