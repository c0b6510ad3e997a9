//! Whole numbers as they are written in a field of a delimited text file.
//!
//! A field holds a whole number where it is an optional sign followed by at
//! least one digit and nothing else. The digits are decimal, or hexadecimal
//! where the field begins with `0x`. No white space is skipped, and a value
//! that does not fit the column's type is no number of that column.

use vstd::prelude::*;
use vstd::utf8::*;
use crate::text::{ascii, ascii_bytes};

verus! {

/// The ASCII code of `0`.
pub const DIGIT_0: u8 = 48;

/// The ASCII code of `9`.
pub const DIGIT_9: u8 = 57;

/// The ASCII code of `A`.
pub const UPPER_A: u8 = 65;

/// The ASCII code of `F`.
pub const UPPER_F: u8 = 70;

/// The ASCII code of `a`.
pub const LOWER_A: u8 = 97;

/// The ASCII code of `f`.
pub const LOWER_F: u8 = 102;

/// The ASCII code of `x`.
pub const LOWER_X: u8 = 120;

/// The ASCII code of the plus sign.
pub const PLUS: u8 = 43;

/// The ASCII code of the minus sign.
pub const MINUS: u8 = 45;

/// The value of one digit written in ASCII, in base 10 or base 16.
pub open spec fn digit_value(byte: u8, radix: int) -> Option<int> {
    if DIGIT_0 <= byte <= DIGIT_9 {
        Some(byte - DIGIT_0)
    } else if radix == 16 && LOWER_A <= byte <= LOWER_F {
        Some(byte - LOWER_A + 10)
    } else if radix == 16 && UPPER_A <= byte <= UPPER_F {
        Some(byte - UPPER_A + 10)
    } else {
        None
    }
}

/// The number that a run of digits denotes; the empty run denotes zero.
/// Nothing where one of the bytes is no digit.
pub open spec fn magnitude(digits: Seq<u8>, radix: int) -> Option<int>
    decreases digits.len(),
{
    if digits.len() == 0 {
        Some(0)
    } else {
        match (magnitude(digits.drop_last(), radix), digit_value(digits.last(), radix)) {
            (Some(high), Some(low)) => Some(high * radix + low),
            _ => None,
        }
    }
}

/// The number that a sign and a run of digits denote. A minus sign is read
/// only where `signed` holds; elsewhere it is an unknown digit.
pub open spec fn signed_number(text: Seq<u8>, radix: int, signed: bool) -> Option<int> {
    if text.len() == 0 {
        None
    } else if text[0] == PLUS {
        if text.len() == 1 {
            None
        } else {
            magnitude(text.skip(1), radix)
        }
    } else if signed && text[0] == MINUS {
        if text.len() == 1 {
            None
        } else {
            match magnitude(text.skip(1), radix) {
                Some(m) => Some(-m),
                None => None,
            }
        }
    } else {
        magnitude(text, radix)
    }
}

/// The number that a field denotes: hexadecimal after the prefix `0x`,
/// decimal otherwise.
pub open spec fn integer_text(text: Seq<u8>, signed: bool) -> Option<int> {
    if text.len() >= 2 && text[0] == DIGIT_0 && text[1] == LOWER_X {
        signed_number(text.skip(2), 16, signed)
    } else {
        signed_number(text, 10, signed)
    }
}

/// A number where it lies between `least` and `most`, nothing elsewhere.
pub open spec fn within(value: Option<int>, least: int, most: int) -> Option<int> {
    match value {
        Some(v) => if least <= v <= most { Some(v) } else { None },
        None => None,
    }
}

/// The whole number of a field of a 32-bit signed column.
pub open spec fn field_i32(text: Seq<char>) -> Option<i32> {
    if !is_ascii_chars(text) {
        None
    } else {
        match within(integer_text(ascii(text), true), i32::MIN as int, i32::MAX as int) {
            Some(v) => Some(v as i32),
            None => None,
        }
    }
}

/// The whole number of a field of an 8-bit unsigned column.
pub open spec fn field_u8(text: Seq<char>) -> Option<u8> {
    if !is_ascii_chars(text) {
        None
    } else {
        match within(integer_text(ascii(text), false), 0, u8::MAX as int) {
            Some(v) => Some(v as u8),
            None => None,
        }
    }
}

/// A run of digits that denotes a number denotes one at every length, and
/// the numbers do not shrink as the run grows.
pub proof fn lemma_magnitude_prefix(digits: Seq<u8>, k: int, radix: int)
    requires
        0 <= k <= digits.len(),
        radix == 10 || radix == 16,
        magnitude(digits, radix) is Some,
    ensures
        magnitude(digits.take(k), radix) is Some,
        0 <= magnitude(digits.take(k), radix)->0 <= magnitude(digits, radix)->0,
    decreases digits.len(),
{
    if k == digits.len() {
        assert(digits.take(k) =~= digits);
        if digits.len() > 0 {
            lemma_magnitude_prefix(digits.drop_last(), k - 1, radix);
        }
    } else {
        lemma_magnitude_prefix(digits.drop_last(), k, radix);
        assert(digits.drop_last().take(k) =~= digits.take(k));
    }
}

/// No run of digits denotes a number below zero.
pub proof fn lemma_magnitude_sign(digits: Seq<u8>, radix: int)
    requires
        radix == 10 || radix == 16,
    ensures
        magnitude(digits, radix) matches Some(m) ==> 0 <= m,
{
    if magnitude(digits, radix) is Some {
        lemma_magnitude_prefix(digits, digits.len() as int, radix);
    }
}

/// The value of one digit in base 10 or base 16.
fn digit(byte: u8, radix: u8) -> (value: Option<u8>)
    requires
        radix == 10 || radix == 16,
    ensures
        match value {
            Some(v) => digit_value(byte, radix as int) == Some(v as int) && v < radix,
            None => digit_value(byte, radix as int) is None,
        },
{
    if DIGIT_0 <= byte && byte <= DIGIT_9 {
        Some(byte - DIGIT_0)
    } else if radix == 16 && LOWER_A <= byte && byte <= LOWER_F {
        Some(byte - LOWER_A + 10)
    } else if radix == 16 && UPPER_A <= byte && byte <= UPPER_F {
        Some(byte - UPPER_A + 10)
    } else {
        None
    }
}

/// Reads the digits of `bytes` from `from` on, giving up as soon as the
/// number passes `limit`.
fn read_magnitude(bytes: &[u8], from: usize, radix: u8, limit: u64) -> (value: Option<u64>)
    requires
        from <= bytes@.len(),
        radix == 10 || radix == 16,
        limit <= 0xffff_ffff,
    ensures
        match value {
            Some(v) => within(magnitude(bytes@.skip(from as int), radix as int), 0, limit as int)
                == Some(v as int),
            None => within(magnitude(bytes@.skip(from as int), radix as int), 0, limit as int)
                is None,
        },
{
    let ghost digits = bytes@.skip(from as int);
    let mut total: u64 = 0;
    let mut i: usize = from;
    while i < bytes.len()
        invariant
            from <= i <= bytes@.len(),
            radix == 10 || radix == 16,
            limit <= 0xffff_ffff,
            digits == bytes@.skip(from as int),
            magnitude(digits.take(i - from), radix as int) == Some(total as int),
            total <= limit,
        decreases bytes@.len() - i,
    {
        let ghost before = digits.take(i - from);
        let ghost after = digits.take(i - from + 1);
        proof {
            assert(after.drop_last() =~= before);
            assert(after.last() == bytes@[i as int]);
            if magnitude(digits, radix as int) is Some {
                lemma_magnitude_prefix(digits, i - from + 1, radix as int);
            }
        }
        match digit(bytes[i], radix) {
            None => {
                return None;
            },
            Some(d) => {
                let next: u64 = total * (radix as u64) + (d as u64);
                if next > limit {
                    return None;
                }
                total = next;
            },
        }
        i += 1;
    }
    proof {
        assert(digits.take(i - from) =~= digits);
    }
    Some(total)
}

/// Reads a whole number between `-least` and `most`.
fn read_integer(bytes: &[u8], signed: bool, least: u64, most: u64) -> (value: Option<i64>)
    requires
        least <= 0xffff_ffff,
        most <= 0xffff_ffff,
    ensures
        match value {
            Some(v) => within(integer_text(bytes@, signed), -(least as int), most as int) == Some(
                v as int,
            ),
            None => within(integer_text(bytes@, signed), -(least as int), most as int) is None,
        },
{
    let n: usize = bytes.len();
    let hex: bool = n >= 2 && bytes[0] == DIGIT_0 && bytes[1] == LOWER_X;
    let radix: u8 = if hex { 16 } else { 10 };
    let start: usize = if hex { 2 } else { 0 };
    let ghost body = bytes@.skip(start as int);
    proof {
        assert(!hex ==> body =~= bytes@);
    }
    if start == n {
        return None;
    }
    let first: u8 = bytes[start];
    assert(body[0] == first);
    if first == PLUS || (signed && first == MINUS) {
        if n - start == 1 {
            return None;
        }
        proof {
            assert(body.skip(1) =~= bytes@.skip(start + 1));
            lemma_magnitude_sign(body.skip(1), radix as int);
        }
        if first == PLUS {
            match read_magnitude(bytes, start + 1, radix, most) {
                Some(m) => Some(m as i64),
                None => None,
            }
        } else {
            match read_magnitude(bytes, start + 1, radix, least) {
                Some(m) => Some(-(m as i64)),
                None => None,
            }
        }
    } else {
        proof {
            lemma_magnitude_sign(body, radix as int);
        }
        match read_magnitude(bytes, start, radix, most) {
            Some(m) => Some(m as i64),
            None => None,
        }
    }
}

/// Reads a field of a 32-bit signed column.
pub fn parse_i32(text: &str) -> (value: Option<i32>)
    ensures
        value == field_i32(text@),
{
    match ascii_bytes(text) {
        None => None,
        Some(bytes) => match read_integer(bytes, true, 0x8000_0000, 0x7fff_ffff) {
            Some(v) => Some(v as i32),
            None => None,
        },
    }
}

/// Reads a field of an 8-bit unsigned column.
pub fn parse_u8(text: &str) -> (value: Option<u8>)
    ensures
        value == field_u8(text@),
{
    match ascii_bytes(text) {
        None => None,
        Some(bytes) => match read_integer(bytes, false, 0, 0xff) {
            Some(v) => Some(v as u8),
            None => None,
        },
    }
}

} // verus!
