//! What the library assumes of std's text functions.

use vstd::prelude::*;

verus! {

/// `==` on `str`, as std documents it: two string slices are equal when
/// they hold the same characters.
pub assume_specification[ <str as PartialEq>::eq ](a: &str, b: &str) -> (same: bool)
    ensures
        same == (a@ == b@),
;

/// The characters of a text that may be missing.
pub open spec fn optional_text(text: Option<String>) -> Option<Seq<char>> {
    match text {
        Some(text) => Some(text@),
        None => None,
    }
}

/// The characters `0` to `9`.
pub open spec fn is_digit(c: char) -> bool {
    '0' <= c <= '9'
}

/// The number that a run of digits writes in base ten.
pub open spec fn digits_value(digits: Seq<char>) -> nat
    decreases digits.len(),
{
    if digits.len() == 0 {
        0
    } else {
        digits_value(digits.drop_last()) * 10 + (digits.last() as nat - '0' as nat) as nat
    }
}

/// The number that `text` writes: digits, at least one, with or without a
/// `+` before them, and a value that fits in 64 bits.
pub open spec fn unsigned_decimal(text: Seq<char>) -> Option<u64> {
    if text.len() > 0 && text[0] == '+' {
        digits_decimal(text.drop_first())
    } else {
        digits_decimal(text)
    }
}

/// The number that `digits` writes: digits only, at least one, and a value
/// that fits in 64 bits.
pub open spec fn digits_decimal(digits: Seq<char>) -> Option<u64> {
    if digits.len() > 0 && (forall|i: int| 0 <= i < digits.len() ==> is_digit(#[trigger] digits[i]))
        && digits_value(digits) <= u64::MAX {
        Some(digits_value(digits) as u64)
    } else {
        None
    }
}

/// A longer run of digits writes no smaller number.
proof fn lemma_digits_value_grows(digits: Seq<char>, n: int)
    requires
        0 <= n <= digits.len(),
        forall|i: int| 0 <= i < digits.len() ==> is_digit(#[trigger] digits[i]),
    ensures
        digits_value(digits.take(n)) <= digits_value(digits),
    decreases digits.len() - n,
{
    if n < digits.len() {
        lemma_digits_value_grows(digits, n + 1);
        assert(digits.take(n + 1).drop_last() == digits.take(n));
        assert(is_digit(digits[n]));
    } else {
        assert(digits.take(n) == digits);
    }
}

/// Reads an unsigned number in base ten, as `str::parse::<u64>` does.
pub fn parse_u64(text: &str) -> (number: Option<u64>)
    ensures
        number == unsigned_decimal(text@),
{
    let len = text.unicode_len();
    let start: usize = if len > 0 && text.get_char(0) == '+' {
        1
    } else {
        0
    };
    if start == len {
        return None;
    }
    let ghost digits = text@.subrange(start as int, len as int);
    assert(digits == if text@.len() > 0 && text@[0] == '+' {
        text@.drop_first()
    } else {
        text@
    });
    assert(unsigned_decimal(text@) == digits_decimal(digits));
    let mut value: u64 = 0;
    let mut i: usize = start;
    while i < len
        invariant
            start <= i <= len,
            len == text@.len(),
            digits == text@.subrange(start as int, len as int),
            unsigned_decimal(text@) == digits_decimal(digits),
            forall|j: int| 0 <= j < i - start ==> is_digit(#[trigger] digits[j]),
            value == digits_value(digits.take(i - start)),
        decreases len - i,
    {
        let c = text.get_char(i);
        assert(c == digits[i - start]);
        if !('0' <= c && c <= '9') {
            assert(!is_digit(digits[i - start]));
            return None;
        }
        let digit: u64 = (c as u64) - ('0' as u64);
        assert(digits.take(i - start + 1).drop_last() == digits.take(i - start));
        if value > (u64::MAX - digit) / 10 {
            proof {
                assert(digits_value(digits.take(i - start + 1)) == value * 10 + digit);
                if forall|j: int| 0 <= j < digits.len() ==> is_digit(#[trigger] digits[j]) {
                    lemma_digits_value_grows(digits, i - start + 1);
                }
            }
            return None;
        }
        value = value * 10 + digit;
        i += 1;
    }
    assert(digits.take(len - start) == digits);
    Some(value)
}

} // verus!
