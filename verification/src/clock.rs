//! Times of day as a stop-time file writes them and as the store keeps them.
//!
//! A schedule counts its hours from the start of the service day, so a trip
//! that runs past midnight arrives at `25:30:00`. Such a time is read here as
//! it stands: the fixed form `HH:MM:SS` (or `H:MM:SS`) is tried first, with
//! any hour of one or two digits. Text that is not in that form is handed to
//! chrono's reader of a time of day, which allows more freedom in spacing and
//! in the seconds, and knows no hour beyond 23. The store keeps a time as six
//! digits, `HHMMSS`.

use vstd::prelude::*;
use vstd::string::*;
use vstd::utf8::*;
use std::str::FromStr;
use chrono::Timelike;
use crate::number::{DIGIT_0, DIGIT_9};
use crate::text::{ascii, ascii_bytes, digit_char, digit_text};

verus! {

/// The ASCII code of the colon between the parts of a time.
pub const COLON: u8 = 58;

/// The nanoseconds of one second. chrono counts the nanoseconds of a leap
/// second from here on.
pub const SECOND_NANOS: u32 = 1_000_000_000;

/// A time of day of a schedule: hours since the start of the service day,
/// minutes and seconds.
#[derive(Clone, Copy, Debug, PartialEq, Eq, Structural)]
pub struct TimeOfDay {
    pub hour: u8,
    pub minute: u8,
    pub second: u8,
}

/// What chrono's `NaiveTime::from_str` makes of a piece of text: the hour,
/// minute, second and nanosecond of the time it reads, or nothing where it
/// rejects the text.
pub uninterp spec fn chrono_clock(text: Seq<char>) -> Option<(u32, u32, u32, u32)>;

/// chrono's `ParseError`: why `NaiveTime::from_str` rejects a piece of
/// text. Nothing of its inside is used here.
#[verifier::external_type_specification]
#[verifier::external_body]
pub struct ExParseError(chrono::ParseError);

/// Calls chrono's `NaiveTime::from_str` and hands out what `Timelike::hour`,
/// `minute`, `second` and `nanosecond` give for the time that was read.
/// Nothing is claimed of the parts but that they are those of
/// [`chrono_clock`]; the text alone decides them.
#[verifier::external_body]
fn parse_clock(text: &str) -> (parts: Result<(u32, u32, u32, u32), chrono::ParseError>)
    ensures
        match parts {
            Ok(p) => chrono_clock(text@) == Some(p),
            Err(_) => chrono_clock(text@) is None,
        },
{
    let time = chrono::NaiveTime::from_str(text)?;
    Ok((time.hour(), time.minute(), time.second(), time.nanosecond()))
}

/// Whether a byte is the ASCII code of a decimal digit.
pub open spec fn is_digit(byte: u8) -> bool {
    DIGIT_0 <= byte <= DIGIT_9
}

/// The number that two decimal digits denote.
pub open spec fn pair_value(high: u8, low: u8) -> int {
    (high - DIGIT_0) * 10 + (low - DIGIT_0)
}

/// The time that an hour of two digits and the tail `:MM:SS` denote.
pub open spec fn fixed_time(high: u8, low: u8, tail: Seq<u8>) -> Option<TimeOfDay> {
    if tail.len() == 6 && tail[0] == COLON && tail[3] == COLON && is_digit(high) && is_digit(low)
        && is_digit(tail[1]) && is_digit(tail[2]) && is_digit(tail[4]) && is_digit(tail[5])
        && pair_value(tail[1], tail[2]) <= 59 && pair_value(tail[4], tail[5]) <= 59 {
        Some(
            TimeOfDay {
                hour: pair_value(high, low) as u8,
                minute: pair_value(tail[1], tail[2]) as u8,
                second: pair_value(tail[4], tail[5]) as u8,
            },
        )
    } else {
        None
    }
}

/// The time that text in the form `HH:MM:SS` or `H:MM:SS` denotes. The hour
/// is not bounded by 24.
pub open spec fn transit_time(text: Seq<u8>) -> Option<TimeOfDay> {
    if text.len() == 8 {
        fixed_time(text[0], text[1], text.skip(2))
    } else if text.len() == 7 {
        fixed_time(DIGIT_0, text[0], text.skip(1))
    } else {
        None
    }
}

/// The time of day that the parts of a time read by chrono stand for.
/// chrono keeps a leap second as second 59 with a second's worth of
/// nanoseconds on top, and writes it as second 60.
pub open spec fn clock_time(parts: (u32, u32, u32, u32)) -> Option<TimeOfDay> {
    let (hour, minute, second, nano) = parts;
    if hour <= 23 && minute <= 59 && second <= 59 && nano < 2 * SECOND_NANOS {
        Some(
            TimeOfDay {
                hour: hour as u8,
                minute: minute as u8,
                second: if nano >= SECOND_NANOS {
                    (second + 1) as u8
                } else {
                    second as u8
                },
            },
        )
    } else {
        None
    }
}

/// The time of day of a field, given what chrono makes of it.
pub open spec fn decoded_time(text: Seq<char>, lenient: Option<(u32, u32, u32, u32)>) -> Option<
    TimeOfDay,
> {
    if is_ascii_chars(text) && transit_time(ascii(text)) is Some {
        transit_time(ascii(text))
    } else {
        match lenient {
            Some(parts) => clock_time(parts),
            None => None,
        }
    }
}

/// A number below 100 in two digits, with a leading zero where needed.
pub open spec fn two_digits(n: int) -> Seq<char> {
    seq![digit_char(n / 10), digit_char(n % 10)]
}

/// The six digits `HHMMSS` of a time of day.
pub open spec fn hhmmss(time: TimeOfDay) -> Seq<char> {
    two_digits(time.hour as int) + two_digits(time.minute as int) + two_digits(time.second as int)
}

/// What the store keeps for a time field: the six digits of its time of day.
pub open spec fn stored_time(text: Seq<char>, lenient: Option<(u32, u32, u32, u32)>) -> Option<
    Seq<char>,
> {
    match decoded_time(text, lenient) {
        Some(time) => Some(hhmmss(time)),
        None => None,
    }
}

/// Appends a number below 100 in two digits.
fn push_two_digits(text: &mut String, n: u8)
    requires
        n <= 99,
    ensures
        final(text)@ == old(text)@ + two_digits(n as int),
{
    text.append(digit_text(n / 10));
    text.append(digit_text(n % 10));
    assert(text@ =~= old(text)@ + two_digits(n as int));
}

/// The number that two bytes denote where both are decimal digits.
fn read_pair(high: u8, low: u8) -> (value: Option<u8>)
    ensures
        match value {
            Some(v) => is_digit(high) && is_digit(low) && v == pair_value(high, low),
            None => !(is_digit(high) && is_digit(low)),
        },
{
    if DIGIT_0 <= high && high <= DIGIT_9 && DIGIT_0 <= low && low <= DIGIT_9 {
        Some((high - DIGIT_0) * 10 + (low - DIGIT_0))
    } else {
        None
    }
}

/// Reads the time of an hour of two digits and the tail `:MM:SS`, which
/// begins at `from`.
fn read_fixed(high: u8, low: u8, bytes: &[u8], from: usize) -> (time: Option<TimeOfDay>)
    requires
        from + 6 == bytes@.len(),
    ensures
        time == fixed_time(high, low, bytes@.skip(from as int)),
{
    if bytes[from] != COLON || bytes[from + 3] != COLON {
        return None;
    }
    let hour = read_pair(high, low);
    let minute = read_pair(bytes[from + 1], bytes[from + 2]);
    let second = read_pair(bytes[from + 4], bytes[from + 5]);
    match (hour, minute, second) {
        (Some(h), Some(m), Some(s)) => {
            if m <= 59 && s <= 59 {
                Some(TimeOfDay { hour: h, minute: m, second: s })
            } else {
                None
            }
        },
        _ => None,
    }
}

/// Reads a time in the form `HH:MM:SS` or `H:MM:SS`.
fn read_transit(bytes: &[u8]) -> (time: Option<TimeOfDay>)
    ensures
        time == transit_time(bytes@),
{
    if bytes.len() == 8 {
        read_fixed(bytes[0], bytes[1], bytes, 2)
    } else if bytes.len() == 7 {
        read_fixed(DIGIT_0, bytes[0], bytes, 1)
    } else {
        None
    }
}

impl TimeOfDay {
    /// A time of day that the store can keep in six digits.
    pub open spec fn wf(self) -> bool {
        self.hour <= 99 && self.minute <= 59 && self.second <= 60
    }

    /// The time of day for the hour, minute, second and nanosecond of a time
    /// as chrono hands them out; nothing where a part is out of its range.
    pub fn from_parts(parts: (u32, u32, u32, u32)) -> (time: Option<TimeOfDay>)
        ensures
            time == clock_time(parts),
            time matches Some(t) ==> t.wf(),
    {
        let (hour, minute, second, nano) = parts;
        if hour <= 23 && minute <= 59 && second <= 59 && nano / 2 < SECOND_NANOS {
            let shown: u32 = if nano >= SECOND_NANOS {
                second + 1
            } else {
                second
            };
            Some(TimeOfDay { hour: hour as u8, minute: minute as u8, second: shown as u8 })
        } else {
            None
        }
    }

    /// The time in the form `HHMMSS`, each part in two digits.
    pub fn hhmmss(&self) -> (text: String)
        requires
            self.wf(),
        ensures
            text@ == hhmmss(*self),
    {
        let mut text = String::new();
        push_two_digits(&mut text, self.hour);
        push_two_digits(&mut text, self.minute);
        push_two_digits(&mut text, self.second);
        text
    }
}

/// Reads the time of day of a field.
///
/// Text in the form `HH:MM:SS` or `H:MM:SS`, with minutes and seconds below
/// 60, is read as it stands, whatever the hour. Other text is read by
/// chrono.
pub fn decode_time(text: &str) -> (time: Option<TimeOfDay>)
    ensures
        time == decoded_time(text@, chrono_clock(text@)),
        time matches Some(t) ==> t.wf(),
{
    let fixed = match ascii_bytes(text) {
        Some(bytes) => read_transit(bytes),
        None => None,
    };
    match fixed {
        Some(time) => Some(time),
        None => match parse_clock(text) {
            Ok(parts) => TimeOfDay::from_parts(parts),
            Err(_) => None,
        },
    }
}

/// Reads a time field into the six digits that the store keeps.
pub fn parse_time(text: &str) -> (digits: Option<String>)
    ensures
        digits.deep_view() == stored_time(text@, chrono_clock(text@)),
{
    match decode_time(text) {
        Some(time) => Some(time.hhmmss()),
        None => None,
    }
}

} // verus!
