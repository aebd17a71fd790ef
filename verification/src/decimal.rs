//! Reading an unsigned number in decimal notation.

use vstd::prelude::*;
use vstd::utf8::encode_utf8;

verus! {

/// The byte of the plus sign.
pub const PLUS: u8 = 43;

/// The byte of the digit zero.
pub const ZERO: u8 = 48;

/// The byte of the digit nine.
pub const NINE: u8 = 57;

/// Whether a byte is one of the ten digits.
pub open spec fn is_digit(byte: u8) -> bool {
    ZERO <= byte <= NINE
}

/// Whether every byte is a digit.
pub open spec fn all_digits(bytes: Seq<u8>) -> bool {
    forall|i: int| 0 <= i < bytes.len() ==> is_digit(#[trigger] bytes[i])
}

/// The number that a sequence of digits denotes, the last digit counting
/// least.
pub open spec fn decimal_value(digits: Seq<u8>) -> nat
    decreases digits.len(),
{
    if digits.len() == 0 {
        0
    } else {
        (decimal_value(digits.drop_last()) * 10 + (digits.last() - ZERO)) as nat
    }
}

/// The text without the plus sign that may stand in front of it.
pub open spec fn without_sign(text: Seq<u8>) -> Seq<u8> {
    if text.len() > 0 && text[0] == PLUS {
        text.skip(1)
    } else {
        text
    }
}

/// The number that `text` denotes: an optional plus sign, then one digit or
/// more and nothing else, with a value that fits in 64 bits. Any other text
/// denotes nothing.
pub open spec fn parsed_u64(text: Seq<u8>) -> Option<u64> {
    let digits = without_sign(text);
    if digits.len() > 0 && all_digits(digits) && decimal_value(digits) <= u64::MAX {
        Some(decimal_value(digits) as u64)
    } else {
        None
    }
}

/// Reading more digits never makes the number smaller.
pub proof fn lemma_prefix_value_is_smaller(digits: Seq<u8>, n: int)
    requires
        all_digits(digits),
        0 <= n <= digits.len(),
    ensures
        decimal_value(digits.take(n)) <= decimal_value(digits),
    decreases digits.len() - n,
{
    if n == digits.len() {
        assert(digits.take(n) =~= digits);
    } else {
        lemma_prefix_value_is_smaller(digits, n + 1);
        let longer = digits.take(n + 1);
        assert(longer.drop_last() =~= digits.take(n));
        assert(is_digit(digits[n]));
        assert(longer.last() == digits[n]);
    }
}

/// Reads the number that `text` denotes.
pub fn parse_u64(text: &str) -> (number: Option<u64>)
    ensures
        number == parsed_u64(encode_utf8(text@)),
{
    let bytes = text.as_bytes();
    let start: usize = if bytes.len() > 0 && bytes[0] == PLUS {
        1
    } else {
        0
    };
    let ghost digits = without_sign(bytes@);
    if start == bytes.len() {
        return None;
    }
    let mut value: u64 = 0;
    let mut i: usize = start;
    while i < bytes.len()
        invariant
            start <= i <= bytes.len(),
            bytes@ == encode_utf8(text@),
            digits == without_sign(bytes@),
            digits == bytes@.skip(start as int),
            all_digits(digits.take(i - start)),
            value == decimal_value(digits.take(i - start)),
        decreases bytes.len() - i,
    {
        let byte = bytes[i];
        let ghost seen = digits.take(i - start);
        let ghost more = digits.take(i - start + 1);
        assert(digits[i - start] == byte);
        if byte < ZERO || byte > NINE {
            assert(!is_digit(digits[i - start]));
            return None;
        }
        assert(more.drop_last() =~= seen);
        assert(more.last() == byte);
        assert(all_digits(more)) by {
            assert forall|k: int| 0 <= k < more.len() implies is_digit(#[trigger] more[k]) by {
                if k < seen.len() {
                    assert(more[k] == seen[k]);
                }
            }
        }
        let digit: u64 = (byte - ZERO) as u64;
        if value > (u64::MAX - digit) / 10 {
            proof {
                assert(decimal_value(more) > u64::MAX);
                if all_digits(digits) {
                    lemma_prefix_value_is_smaller(digits, i - start + 1);
                }
            }
            return None;
        }
        value = value * 10 + digit;
        i = i + 1;
    }
    assert(digits.take(i - start) =~= digits);
    Some(value)
}

} // verus!
