//! Calendar dates, as the API writes them (`YYYY-MM-DD`).

use vstd::prelude::*;
use crate::text::dec;

verus! {

/// The earliest year a calendar date can have.
pub open spec fn min_year() -> int {
    -262143
}

/// The latest year a calendar date can have.
pub open spec fn max_year() -> int {
    262142
}

/// Whether a year is a leap year of the proleptic Gregorian calendar.
pub open spec fn is_leap_year(y: int) -> bool {
    y % 4 == 0 && (y % 100 != 0 || y % 400 == 0)
}

/// The number of days of a month.
pub open spec fn days_in_month(y: int, m: int) -> int {
    if m == 2 {
        if is_leap_year(y) {
            29
        } else {
            28
        }
    } else if m == 4 || m == 6 || m == 9 || m == 11 {
        30
    } else {
        31
    }
}

/// Whether year, month and day name a calendar date in the supported range.
pub open spec fn valid_ymd(y: int, m: int, d: int) -> bool {
    &&& min_year() <= y <= max_year()
    &&& 1 <= m <= 12
    &&& 1 <= d <= days_in_month(y, m)
}

/// `s` preceded by zeros up to `width` characters.
pub open spec fn zero_pad(s: Seq<char>, width: nat) -> Seq<char> {
    if s.len() >= width {
        s
    } else {
        Seq::new((width - s.len()) as nat, |i: int| '0') + s
    }
}

/// A year written with at least four digits, and with a sign where it is below 0 or above 9999.
pub open spec fn year_text(y: int) -> Seq<char> {
    if 0 <= y <= 9999 {
        zero_pad(dec(y as nat), 4)
    } else if y > 9999 {
        seq!['+'] + dec(y as nat)
    } else {
        seq!['-'] + zero_pad(dec((-y) as nat), 4)
    }
}

/// A date written as `YYYY-MM-DD`.
pub open spec fn date_text(y: int, m: nat, d: nat) -> Seq<char> {
    year_text(y) + seq!['-'] + zero_pad(dec(m), 2) + seq!['-'] + zero_pad(dec(d), 2)
}

/// A calendar date of `chrono`; carried through as it is.
#[verifier::external_type_specification]
#[verifier::external_body]
pub struct ExNaiveDate(chrono::NaiveDate);

/// `chrono::NaiveDate::from_ymd_opt`.
///
/// Its documentation and source say that it returns `Some` exactly for the dates of the
/// proleptic Gregorian calendar whose year lies between `MIN_YEAR` (-262143) and `MAX_YEAR`
/// (262142); the contract states that, and nothing of the date it holds.
#[verifier::external_body]
fn chrono_from_ymd(year: i32, month: u32, day: u32) -> (res: Option<chrono::NaiveDate>)
    ensures
        res is Some <==> valid_ymd(year as int, month as int, day as int),
{
    chrono::NaiveDate::from_ymd_opt(year, month, day)
}

/// Formats a date with `chrono`'s `%Y-%m-%d`.
///
/// `chrono` writes `%Y` zero-padded to four digits, with a sign for years below 0 or above
/// 9999, and `%m`, `%d` zero-padded to two digits; the contract states that.
#[verifier::external_body]
fn chrono_format_ymd(year: i32, month: u32, day: u32) -> (res: String)
    requires
        valid_ymd(year as int, month as int, day as int),
    ensures
        res@ == date_text(year as int, month as nat, day as nat),
{
    chrono::NaiveDate::from_ymd_opt(year, month, day).unwrap().format("%Y-%m-%d").to_string()
}

/// The year, month and day of the date and time that `chrono::NaiveDateTime`'s `FromStr`
/// reads from a text (such as `2015-09-18T23:56:04`); `None` where it refuses the text.
pub uninterp spec fn chrono_datetime_date(s: Seq<char>) -> Option<(i32, u32, u32)>;

/// Reads a date and time with `chrono::NaiveDateTime`'s `FromStr` and keeps its date.
///
/// The result depends on the text alone: the contract names it. `chrono` only ever builds
/// valid dates, so a date that comes back is one. What texts `chrono` accepts is not stated.
#[verifier::external_body]
fn chrono_parse_datetime_date(s: &str) -> (res: Option<(i32, u32, u32)>)
    ensures
        res == chrono_datetime_date(s@),
        res matches Some((y, m, d)) ==> valid_ymd(y as int, m as int, d as int),
{
    match s.parse::<chrono::NaiveDateTime>() {
        Ok(t) => Some((chrono::Datelike::year(&t), chrono::Datelike::month(&t), chrono::Datelike::day(&t))),
        Err(_) => None,
    }
}

/// A date and time without a time zone, from `chrono`; carried through as it is.
#[verifier::external_type_specification]
#[verifier::external_body]
pub struct ExNaiveDateTime(chrono::NaiveDateTime);

/// `NaiveDateTime::clone`, which `derive(Clone)` writes for a `Copy` type: it gives back the
/// value it is given.
pub assume_specification[ <chrono::NaiveDateTime as Clone>::clone ](t: &chrono::NaiveDateTime) -> (res: chrono::NaiveDateTime)
    ensures
        res == *t,
;

/// A calendar date.
#[derive(Debug, PartialEq, Eq, Structural, Copy, Clone, Hash)]
pub struct Date {
    year: i32,
    month: u32,
    day: u32,
}

impl View for Date {
    type V = (int, nat, nat);

    closed spec fn view(&self) -> (int, nat, nat) {
        (self.year as int, self.month as nat, self.day as nat)
    }
}

impl Date {
    #[verifier::type_invariant]
    closed spec fn inv(self) -> bool {
        valid_ymd(self.year as int, self.month as int, self.day as int)
    }

    /// Makes a date from year, month and day, as `NaiveDate::from_ymd_opt` does: `None` for a
    /// day that does not exist or a year out of range.
    pub fn from_ymd_opt(year: i32, month: u32, day: u32) -> (res: Option<Date>)
        ensures
            res is Some <==> valid_ymd(year as int, month as int, day as int),
            res matches Some(d) ==> d@ == (year as int, month as nat, day as nat),
    {
        if chrono_from_ymd(year, month, day).is_some() {
            Some(Date { year, month, day })
        } else {
            None
        }
    }

    /// The date of a date and time written as the API writes it, such as
    /// `2015-09-18T23:56:04`, read as `chrono::NaiveDateTime` reads it; `None` where `chrono`
    /// refuses the text.
    pub fn from_datetime_text(s: &str) -> (res: Option<Date>)
        ensures
            match chrono_datetime_date(s@) {
                Some((y, m, d)) => res matches Some(date) && date@ == (y as int, m as nat, d as nat),
                None => res is None,
            },
    {
        match chrono_parse_datetime_date(s) {
            Some((year, month, day)) => Some(Date { year, month, day }),
            None => None,
        }
    }

    /// The year.
    pub fn year(&self) -> (res: i32)
        ensures
            res as int == self@.0,
    {
        self.year
    }

    /// The month, from 1 to 12.
    pub fn month(&self) -> (res: u32)
        ensures
            res as nat == self@.1,
    {
        self.month
    }

    /// The day of the month, from 1.
    pub fn day(&self) -> (res: u32)
        ensures
            res as nat == self@.2,
    {
        self.day
    }

    /// The date as the API writes it, `YYYY-MM-DD`.
    pub fn to_api_string(&self) -> (res: String)
        ensures
            res@ == date_text(self@.0, self@.1, self@.2),
    {
        proof {
            use_type_invariant(self);
        }
        chrono_format_ymd(self.year, self.month, self.day)
    }
}

} // verus!
