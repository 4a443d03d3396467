//! Simplified timestamps, such as `20251231_235959`, that list when each play of a game
//! happened.

use vstd::prelude::*;
use crate::date::{valid_ymd, year_text, zero_pad};
use crate::text::dec;

verus! {

/// The error `chrono` gives for a text it cannot read.
#[verifier::external_type_specification]
#[verifier::external_body]
pub struct ExParseError(chrono::format::ParseError);

/// A time of day as `chrono` accepts it: a nanosecond part of a second or more stands for a
/// leap second, and only in the last second of a minute.
pub open spec fn valid_hms_nano(h: int, mi: int, s: int, nano: int) -> bool {
    &&& 0 <= h < 24
    &&& 0 <= mi < 60
    &&& 0 <= s < 60
    &&& 0 <= nano < 2_000_000_000
    &&& nano >= 1_000_000_000 ==> s == 59
}

/// The parts of a date and time.
#[derive(Debug, PartialEq, Eq, Structural, Copy, Clone)]
pub struct DateTimeParts {
    pub year: i32,
    pub month: u32,
    pub day: u32,
    pub hour: u32,
    pub minute: u32,
    pub second: u32,
    pub nanosecond: u32,
}

/// Whether the parts of a date and time make one.
pub open spec fn valid_parts(p: DateTimeParts) -> bool {
    valid_ymd(p.year as int, p.month as int, p.day as int) && valid_hms_nano(
        p.hour as int,
        p.minute as int,
        p.second as int,
        p.nanosecond as int,
    )
}

/// What `chrono::NaiveDateTime::parse_from_str` reads from a text with the format
/// `%Y%m%d_%H%M%S`, as its parts; `None` where it refuses the text.
pub uninterp spec fn chrono_simplified_parse(s: Seq<char>) -> Option<DateTimeParts>;

/// Reads a text with `chrono::NaiveDateTime::parse_from_str` and the format `%Y%m%d_%H%M%S`.
///
/// The result depends on the text alone: the contract names it. `chrono` only ever builds
/// valid dates and times, so the parts of a result make one. What `chrono` accepts (such as
/// signs and widths of the fields) is not stated.
#[verifier::external_body]
fn chrono_parse_simplified(s: &str) -> (res: Result<DateTimeParts, chrono::format::ParseError>)
    ensures
        match res {
            Ok(p) => chrono_simplified_parse(s@) == Some(p) && valid_parts(p),
            Err(_) => chrono_simplified_parse(s@) is None,
        },
{
    match chrono::NaiveDateTime::parse_from_str(s, "%Y%m%d_%H%M%S") {
        Ok(t) => Ok(DateTimeParts {
            year: chrono::Datelike::year(&t),
            month: chrono::Datelike::month(&t),
            day: chrono::Datelike::day(&t),
            hour: chrono::Timelike::hour(&t),
            minute: chrono::Timelike::minute(&t),
            second: chrono::Timelike::second(&t),
            nanosecond: chrono::Timelike::nanosecond(&t),
        }),
        Err(e) => Err(e),
    }
}

/// A number written with two digits, zero-padded, as `chrono` writes `%m`, `%d`, `%H`, `%M`
/// and `%S`.
pub open spec fn two_digits(n: nat) -> Seq<char> {
    zero_pad(dec(n), 2)
}

/// A date and time written with the format `%Y%m%d_%H%M%S`, and a leap second written as
/// second 60.
pub open spec fn simplified_text(p: DateTimeParts) -> Seq<char> {
    year_text(p.year as int) + two_digits(p.month as nat) + two_digits(p.day as nat) + seq!['_'] + two_digits(
        p.hour as nat,
    ) + two_digits(p.minute as nat) + two_digits((p.second + p.nanosecond / 1_000_000_000) as nat)
}

/// Formats a date and time with `chrono` and the format `%Y%m%d_%H%M%S`.
///
/// `chrono` writes `%Y` as `year_text` says, `%m`, `%d`, `%H`, `%M` with two digits, and
/// `%S` as the second plus one for a leap second, with two digits; the contract states that.
#[verifier::external_body]
fn chrono_format_simplified(p: DateTimeParts) -> (res: String)
    requires
        valid_parts(p),
    ensures
        res@ == simplified_text(p),
{
    chrono::NaiveDate::from_ymd_opt(p.year, p.month, p.day)
        .unwrap()
        .and_hms_nano_opt(p.hour, p.minute, p.second, p.nanosecond)
        .unwrap()
        .format("%Y%m%d_%H%M%S")
        .to_string()
}

/// A date and time in UTC, written like `20251231_235959`.
#[derive(Debug, PartialEq, Eq, Structural, Copy, Clone)]
pub struct SimplifiedTimestamp {
    parts: DateTimeParts,
}

impl View for SimplifiedTimestamp {
    type V = DateTimeParts;

    closed spec fn view(&self) -> DateTimeParts {
        self.parts
    }
}

impl SimplifiedTimestamp {
    #[verifier::type_invariant]
    closed spec fn inv(self) -> bool {
        valid_parts(self.parts)
    }

    /// The timestamp of the given parts, where they make a date and time.
    pub fn from_parts(p: DateTimeParts) -> (res: Option<Self>)
        ensures
            res is Some <==> valid_parts(p),
            res matches Some(t) ==> t@ == p,
    {
        if valid_parts_exec(p) {
            Some(SimplifiedTimestamp { parts: p })
        } else {
            None
        }
    }

    /// The parts of the timestamp.
    pub fn parts(&self) -> (res: DateTimeParts)
        ensures
            res == self@,
            valid_parts(res),
    {
        proof {
            use_type_invariant(self);
        }
        self.parts
    }

    /// Reads a timestamp written as `%Y%m%d_%H%M%S`, such as `20251231_235959`.
    pub fn from_str(s: &str) -> (res: Result<Self, chrono::format::ParseError>)
        ensures
            match res {
                Ok(t) => chrono_simplified_parse(s@) == Some(t@),
                Err(_) => chrono_simplified_parse(s@) is None,
            },
    {
        match chrono_parse_simplified(s) {
            Ok(p) => Ok(SimplifiedTimestamp { parts: p }),
            Err(e) => Err(e),
        }
    }

    /// The timestamp as it is displayed: `%Y%m%d_%H%M%S`, the text it is read from.
    pub fn to_string(&self) -> (res: String)
        ensures
            res@ == simplified_text(self@),
    {
        proof {
            use_type_invariant(self);
        }
        chrono_format_simplified(self.parts)
    }
}

/// Whether the parts of a date and time make one.
fn valid_parts_exec(p: DateTimeParts) -> (res: bool)
    ensures
        res == valid_parts(p),
{
    valid_ymd_exec(p.year, p.month, p.day) && p.hour < 24 && p.minute < 60 && p.second < 60 && p.nanosecond
        < 2_000_000_000 && (p.nanosecond < 1_000_000_000 || p.second == 59)
}

/// Whether a year, month and day make a date `chrono` can hold.
fn valid_ymd_exec(y: i32, m: u32, d: u32) -> (res: bool)
    ensures
        res == valid_ymd(y as int, m as int, d as int),
{
    crate::date::Date::from_ymd_opt(y, m, d).is_some()
}

} // verus!
