//! Calendar dates of the proleptic Gregorian calendar, and their short
//! written form.

use crate::number::two_digits;
use vstd::prelude::*;

verus! {

/// The earliest year a date can lie in.
pub const MIN_YEAR: i32 = -262143;

/// The latest year a date can lie in.
pub const MAX_YEAR: i32 = 262142;

/// Whether `year` has a 29th of February.
pub open spec fn is_leap_year(year: int) -> bool {
    year % 4 == 0 && (year % 100 != 0 || year % 400 == 0)
}

/// The number of days of `month` in `year`; zero where there is no such
/// month.
pub open spec fn days_in_month(year: int, month: int) -> int {
    if month == 2 {
        if is_leap_year(year) {
            29
        } else {
            28
        }
    } else if month == 4 || month == 6 || month == 9 || month == 11 {
        30
    } else if 1 <= month <= 12 {
        31
    } else {
        0
    }
}

/// Whether the calendar has the day `day` of `month` in `year`, and the
/// year is one a date can lie in.
pub open spec fn valid_date(year: int, month: int, day: int) -> bool {
    &&& MIN_YEAR <= year <= MAX_YEAR
    &&& 1 <= month <= 12
    &&& 1 <= day <= days_in_month(year, month)
}

/// A date written as day, month and the last two digits of the year, each
/// with two digits and with a stroke between them.
pub open spec fn short_date_text(year: int, month: int, day: int) -> Seq<char> {
    two_digits(day as nat) + seq!['/'] + two_digits(month as nat) + seq!['/'] + two_digits(
        (year % 100) as nat,
    )
}

/// A day of the calendar.
#[derive(Clone, Copy, Debug, PartialEq, Eq)]
pub struct CalendarDate {
    year: i32,
    month: u32,
    day: u32,
}

/// Whether `year` has a 29th of February.
pub fn leap_year(year: i32) -> (leap: bool)
    ensures
        leap == is_leap_year(year as int),
{
    // A multiple of 400 is added, so that the remainders are taken of a
    // positive number.
    let shifted: i64 = year as i64 + 2147484000;
    shifted % 4 == 0 && (shifted % 100 != 0 || shifted % 400 == 0)
}

/// The number of days of `month` in `year`; zero where there is no such
/// month.
pub fn month_length(year: i32, month: u32) -> (days: u32)
    ensures
        days == days_in_month(year as int, month as int),
{
    if month == 2 {
        if leap_year(year) {
            29
        } else {
            28
        }
    } else if month == 4 || month == 6 || month == 9 || month == 11 {
        30
    } else if 1 <= month && month <= 12 {
        31
    } else {
        0
    }
}

impl CalendarDate {
    pub closed spec fn spec_year(self) -> int {
        self.year as int
    }

    pub closed spec fn spec_month(self) -> int {
        self.month as int
    }

    pub closed spec fn spec_day(self) -> int {
        self.day as int
    }

    /// The date is one the calendar has.
    pub open spec fn wf(self) -> bool {
        valid_date(self.spec_year(), self.spec_month(), self.spec_day())
    }

    /// The date's short written form.
    pub open spec fn spec_short_text(self) -> Seq<char> {
        short_date_text(self.spec_year(), self.spec_month(), self.spec_day())
    }

    /// The given day, if the calendar has it.
    pub fn new(year: i32, month: u32, day: u32) -> (date: Option<CalendarDate>)
        ensures
            date is Some <==> valid_date(year as int, month as int, day as int),
            date matches Some(d) ==> d.wf() && d.spec_year() == year && d.spec_month() == month
                && d.spec_day() == day,
    {
        if year < MIN_YEAR || year > MAX_YEAR {
            return None;
        }
        if month < 1 || month > 12 {
            return None;
        }
        if day < 1 || day > month_length(year, month) {
            return None;
        }
        Some(CalendarDate { year, month, day })
    }

    pub fn year(&self) -> (year: i32)
        ensures
            year == self.spec_year(),
    {
        self.year
    }

    pub fn month(&self) -> (month: u32)
        ensures
            month == self.spec_month(),
    {
        self.month
    }

    pub fn day(&self) -> (day: u32)
        ensures
            day == self.spec_day(),
    {
        self.day
    }

    /// The day in UTC on which the moment `seconds` seconds after the start
    /// of 1970 falls; `None` where the calendar does not reach that far.
    pub closed spec fn spec_of_unix_seconds(seconds: i64) -> Option<CalendarDate> {
        match utc_date_of(seconds) {
            Some(parts) => Some(CalendarDate { year: parts.0, month: parts.1, day: parts.2 }),
            None => None,
        }
    }

    /// The day in UTC on which the moment `seconds` seconds after the start
    /// of 1970 falls; `None` where the calendar does not reach that far.
    pub fn of_unix_seconds(seconds: i64) -> (date: Option<CalendarDate>)
        ensures
            date == Self::spec_of_unix_seconds(seconds),
            date is Some <==> utc_date_of(seconds) is Some,
            date matches Some(d) ==> d.wf() && utc_date_of(seconds) == Some(
                (d.spec_year() as i32, d.spec_month() as u32, d.spec_day() as u32),
            ),
    {
        match utc_date_at(seconds) {
            Some((year, month, day)) => Some(CalendarDate { year, month, day }),
            None => None,
        }
    }

    /// The date as `DD/MM/YY`.
    pub fn short_text(&self) -> (text: String)
        requires
            self.wf(),
        ensures
            text@ == self.spec_short_text(),
    {
        day_month_year(self.year, self.month, self.day)
    }
}

/// Year, month and day of the date in UTC on which a moment falls, given
/// in seconds since the start of 1970, as the `chrono` crate computes them;
/// `None` where chrono has no date for the moment.
pub uninterp spec fn utc_date_of(seconds: i64) -> Option<(i32, u32, u32)>;

/// The date of a moment, from the `chrono` crate (`DateTime::from_timestamp`
/// with no nanoseconds, then `naive_utc`, `date` and the getters of
/// `Datelike`). Claimed of it: the result depends on `seconds` alone, and
/// where there is one, the three numbers are a day of the calendar within
/// chrono's range of years.
#[verifier::external_body]
fn utc_date_at(seconds: i64) -> (date: Option<(i32, u32, u32)>)
    ensures
        date == utc_date_of(seconds),
        date matches Some(d) ==> valid_date(d.0 as int, d.1 as int, d.2 as int),
{
    match chrono::DateTime::from_timestamp(seconds, 0) {
        Some(moment) => {
            let date = moment.naive_utc().date();
            Some(
                (
                    chrono::Datelike::year(&date),
                    chrono::Datelike::month(&date),
                    chrono::Datelike::day(&date),
                ),
            )
        },
        None => None,
    }
}

/// The date as `chrono` writes it under the format `%d/%m/%y`
/// (`NaiveDate::from_ymd_opt`, then `format` and `to_string`). Claimed of
/// it: chrono accepts every valid date, and writes the day, the month and
/// the year's remainder modulo 100 (never negative), each zero-padded to
/// two digits, with a stroke between them.
#[verifier::external_body]
fn day_month_year(year: i32, month: u32, day: u32) -> (text: String)
    requires
        valid_date(year as int, month as int, day as int),
    ensures
        text@ == short_date_text(year as int, month as int, day as int),
{
    match chrono::NaiveDate::from_ymd_opt(year, month, day) {
        Some(date) => date.format("%d/%m/%y").to_string(),
        None => String::new(),
    }
}

/// The day of a moment has the year, month and day that chrono gives for
/// it, and there is none where chrono gives none.
pub proof fn lemma_day_of_unix_seconds(seconds: i64)
    ensures
        match utc_date_of(seconds) {
            Some(parts) => CalendarDate::spec_of_unix_seconds(seconds) matches Some(date)
                && date.spec_year() == parts.0 && date.spec_month() == parts.1 && date.spec_day()
                == parts.2,
            None => CalendarDate::spec_of_unix_seconds(seconds) is None,
        },
{
}

} // verus!
