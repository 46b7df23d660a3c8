use vstd::prelude::*;

use crate::error::ParseError;
use chrono::Datelike;

verus! {

/// Earliest and latest years of the calendar that dates are read with.
pub const MIN_YEAR: i32 = -262143;

pub const MAX_YEAR: i32 = 262142;

/// Timestamps lie within this many seconds of 1970-01-01 00:00:00.
pub const TIMESTAMP_LIMIT: i64 = 8_000_000_000_000;

pub open spec fn is_leap_year(y: int) -> bool {
    (y % 4 == 0 && y % 100 != 0) || y % 400 == 0
}

pub open spec fn days_in_month(y: int, m: int) -> int {
    if m == 2 {
        if is_leap_year(y) {
            29
        } else {
            28
        }
    } else if m == 4 || m == 6 || m == 9 || m == 11 {
        30
    } else {
        31
    }
}

/// A day of the proleptic Gregorian calendar.
pub open spec fn valid_ymd(y: int, m: int, d: int) -> bool {
    &&& MIN_YEAR <= y <= MAX_YEAR
    &&& 1 <= m <= 12
    &&& 1 <= d <= days_in_month(y, m)
}

/// What `%Y-%m-%d` reads from a text: year, month and day, or nothing.
pub uninterp spec fn date_fields_of(s: Seq<char>) -> Option<(i32, u32, u32)>;

/// What `%Y-%m-%d %H:%M:%S` reads from a text, as seconds since 1970-01-01 00:00:00.
pub uninterp spec fn timestamp_seconds_of(s: Seq<char>) -> Option<i64>;

/// The `%Y-%m-%d %H:%M:%S` text of the instant that many seconds after 1970-01-01 00:00:00.
pub uninterp spec fn timestamp_text_of(seconds: int) -> Seq<char>;

pub open spec fn digit_char(n: int) -> char {
    ((n + '0' as int) as u32) as char
}

/// `n` written with exactly `width` digits, zeros in front.
pub open spec fn padded(n: nat, width: nat) -> Seq<char>
    decreases width,
{
    if width == 0 {
        Seq::empty()
    } else {
        padded(n / 10, (width - 1) as nat).push(digit_char((n % 10) as int))
    }
}

/// The `YYYY-MM-DD` text of a date whose year has at most four digits.
pub open spec fn iso_date_text(y: nat, m: nat, d: nat) -> Seq<char> {
    padded(y, 4) + seq!['-'] + padded(m, 2) + seq!['-'] + padded(d, 2)
}

/// Relies on chrono's `NaiveDate::parse_from_str` with `%Y-%m-%d`: whatever it accepts is
/// a day of the calendar within chrono's range of years.
#[verifier::external_body]
fn chrono_parse_date(s: &str) -> (r: Option<(i32, u32, u32)>)
    ensures
        r == date_fields_of(s@),
        r matches Some((y, m, d)) ==> valid_ymd(y as int, m as int, d as int),
{
    match chrono::NaiveDate::parse_from_str(s, "%Y-%m-%d") {
        Ok(d) => Some((d.year(), d.month(), d.day())),
        Err(_) => None,
    }
}

/// Relies on chrono's `NaiveDate::from_ymd_opt`, which accepts every valid day, and on its
/// `%Y-%m-%d` formatting, which writes a year of 0 to 9999 with four digits and month and
/// day with two.
#[verifier::external_body]
fn chrono_format_date(y: i32, m: u32, d: u32) -> (r: String)
    requires
        valid_ymd(y as int, m as int, d as int),
    ensures
        0 <= y <= 9999 ==> r@ == iso_date_text(y as nat, m as nat, d as nat),
{
    chrono::NaiveDate::from_ymd_opt(y, m, d).unwrap().format("%Y-%m-%d").to_string()
}

/// Relies on chrono's `NaiveDateTime::parse_from_str` with `%Y-%m-%d %H:%M:%S`, and on
/// `and_utc().timestamp()` to count the seconds since 1970-01-01 00:00:00.
#[verifier::external_body]
fn chrono_parse_date_time(s: &str) -> (r: Option<i64>)
    ensures
        r == timestamp_seconds_of(s@),
{
    match chrono::NaiveDateTime::parse_from_str(s, "%Y-%m-%d %H:%M:%S") {
        Ok(t) => Some(t.and_utc().timestamp()),
        Err(_) => None,
    }
}

/// Relies on chrono's `DateTime::from_timestamp`, which accepts every count of seconds
/// within `TIMESTAMP_LIMIT`, and on its `%Y-%m-%d %H:%M:%S` formatting.
#[verifier::external_body]
fn chrono_format_date_time(seconds: i64) -> (r: String)
    requires
        -TIMESTAMP_LIMIT <= seconds <= TIMESTAMP_LIMIT,
    ensures
        r@ == timestamp_text_of(seconds as int),
{
    chrono::DateTime::from_timestamp(seconds, 0).unwrap().naive_utc().format(
        "%Y-%m-%d %H:%M:%S",
    ).to_string()
}

/// Relies on chrono's `Local::now` for the local wall-clock time; its seconds since
/// 1970-01-01 00:00:00 stay within the range of chrono's years.
#[verifier::external_body]
fn chrono_local_now() -> (r: i64)
    ensures
        -8_400_000_000_000 <= r <= 8_400_000_000_000,
{
    chrono::Local::now().naive_local().and_utc().timestamp()
}

/// A day of the calendar, without a time of day.
#[derive(Debug, Clone, Copy, PartialEq, Eq, Structural)]
pub struct CalendarDate {
    pub year: i32,
    pub month: u32,
    pub day: u32,
}

impl CalendarDate {
    /// A valid day whose year has four digits.
    pub open spec fn wf(self) -> bool {
        &&& valid_ymd(self.year as int, self.month as int, self.day as int)
        &&& 0 <= self.year <= 9999
    }

    pub open spec fn text(self) -> Seq<char> {
        iso_date_text(self.year as nat, self.month as nat, self.day as nat)
    }

    /// Whether this is a valid day with a four-digit year.
    pub fn is_valid(&self) -> (r: bool)
        ensures
            r == self.wf(),
    {
        if self.year < 0 || self.year > 9999 || self.month < 1 || self.month > 12 || self.day < 1 {
            return false;
        }
        let y = self.year;
        let leap = (y % 4 == 0 && y % 100 != 0) || y % 400 == 0;
        let m = self.month;
        let days: u32 = if m == 2 {
            if leap {
                29
            } else {
                28
            }
        } else if m == 4 || m == 6 || m == 9 || m == 11 {
            30
        } else {
            31
        };
        self.day <= days
    }

    /// The date as `YYYY-MM-DD`.
    pub fn format(&self) -> (r: String)
        requires
            self.wf(),
        ensures
            r@ == self.text(),
    {
        chrono_format_date(self.year, self.month, self.day)
    }
}

/// An instant without time zone, as seconds since 1970-01-01 00:00:00.
#[derive(Debug, Clone, Copy, PartialEq, Eq, Structural)]
pub struct Timestamp {
    pub seconds: i64,
}

impl Timestamp {
    pub open spec fn wf(self) -> bool {
        -TIMESTAMP_LIMIT <= self.seconds <= TIMESTAMP_LIMIT
    }

    /// Whether the instant lies within `TIMESTAMP_LIMIT` seconds of 1970-01-01 00:00:00.
    pub fn is_valid(&self) -> (r: bool)
        ensures
            r == self.wf(),
    {
        -TIMESTAMP_LIMIT <= self.seconds && self.seconds <= TIMESTAMP_LIMIT
    }

    /// The instant as `YYYY-MM-DD HH:MM:SS`.
    pub fn format(&self) -> (r: String)
        requires
            self.wf(),
        ensures
            r@ == timestamp_text_of(self.seconds as int),
    {
        chrono_format_date_time(self.seconds)
    }

    /// The local wall-clock time now.
    pub fn now() -> (r: Timestamp)
        ensures
            -8_400_000_000_000 <= r.seconds <= 8_400_000_000_000,
    {
        Timestamp { seconds: chrono_local_now() }
    }
}

/// Reads a date of the form `YYYY-MM-DD`; anything else, or a year beyond four digits, fails.
pub fn parse_date(s: &str) -> (r: Result<CalendarDate, ParseError>)
    ensures
        match date_fields_of(s@) {
            Some((y, m, d)) => if 0 <= y <= 9999 {
                r == Ok::<CalendarDate, ParseError>(CalendarDate { year: y, month: m, day: d })
            } else {
                r == Err::<CalendarDate, ParseError>(ParseError::InvalidDate)
            },
            None => r == Err::<CalendarDate, ParseError>(ParseError::InvalidDate),
        },
        r matches Ok(d) ==> d.wf(),
{
    match chrono_parse_date(s) {
        Some((y, m, d)) => {
            if 0 <= y && y <= 9999 {
                Ok(CalendarDate { year: y, month: m, day: d })
            } else {
                Err(ParseError::InvalidDate)
            }
        },
        None => Err(ParseError::InvalidDate),
    }
}

/// Reads a timestamp of the form `YYYY-MM-DD HH:MM:SS`; anything else, or an instant beyond
/// `TIMESTAMP_LIMIT`, fails.
pub fn parse_date_time(s: &str) -> (r: Result<Timestamp, ParseError>)
    ensures
        match timestamp_seconds_of(s@) {
            Some(t) => if -TIMESTAMP_LIMIT <= t <= TIMESTAMP_LIMIT {
                r == Ok::<Timestamp, ParseError>(Timestamp { seconds: t })
            } else {
                r == Err::<Timestamp, ParseError>(ParseError::InvalidTimestamp)
            },
            None => r == Err::<Timestamp, ParseError>(ParseError::InvalidTimestamp),
        },
        r matches Ok(t) ==> t.wf(),
{
    match chrono_parse_date_time(s) {
        Some(t) => {
            if -TIMESTAMP_LIMIT <= t && t <= TIMESTAMP_LIMIT {
                Ok(Timestamp { seconds: t })
            } else {
                Err(ParseError::InvalidTimestamp)
            }
        },
        None => Err(ParseError::InvalidTimestamp),
    }
}

} // verus!
