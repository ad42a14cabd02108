//! The proleptic Gregorian calendar, as far as the year view needs it: leap
//! years, the length of a year, and the weekday of a day given by its year and
//! its day of the year.

use chrono::{Datelike, NaiveDate, Utc};
use crate::habit::Day;
use vstd::prelude::*;

verus! {

/// The first year that a date can lie in.
pub const MIN_YEAR: i32 = -262143;

/// The last year that a date can lie in.
pub const MAX_YEAR: i32 = 262142;

/// Whether `year` has a 29th of February.
pub open spec fn is_leap_year(year: int) -> bool {
    year % 4 == 0 && (year % 100 != 0 || year % 400 == 0)
}

/// The number of days of `year`.
pub open spec fn days_in_year(year: int) -> int {
    if is_leap_year(year) {
        366
    } else {
        365
    }
}

/// The number of days from the first of January of the year 1 up to, and
/// without, the first of January of `year`. It is negative before the year 1.
pub open spec fn days_before_year(year: int) -> int {
    let y = year - 1;
    365 * y + y / 4 - y / 100 + y / 400
}

/// The weekday of day `ordinal` of `year`, counted from Monday, which is 0.
/// The first of January of the year 1 is a Monday.
pub open spec fn weekday_index(year: int, ordinal: int) -> int {
    (days_before_year(year) + ordinal - 1) % 7
}

/// The number of days of `month` in `year`, 0 where there is no such month.
pub open spec fn days_in_month(year: int, month: int) -> int {
    if month == 2 {
        if is_leap_year(year) {
            29
        } else {
            28
        }
    } else if month == 4 || month == 6 || month == 9 || month == 11 {
        30
    } else if 1 <= month <= 12 {
        31
    } else {
        0
    }
}

/// The number of days of `year` that lie before the first of `month`.
pub open spec fn days_before_month(year: int, month: int) -> int
    decreases month,
{
    if month <= 1 {
        0
    } else {
        days_before_month(year, month - 1) + days_in_month(year, month - 1)
    }
}

/// A calendar date.
#[derive(Debug, Clone, Copy, PartialEq, Eq, Structural)]
pub struct Date {
    pub year: i32,
    pub month: u8,
    pub day: u8,
}

impl Date {
    /// Whether there is such a day in the calendar, in a year that dates can
    /// lie in.
    pub open spec fn valid(self) -> bool {
        &&& MIN_YEAR <= self.year <= MAX_YEAR
        &&& 1 <= self.month <= 12
        &&& 1 <= self.day <= days_in_month(self.year as int, self.month as int)
    }

    /// The day of the year, from 1 for the first of January.
    pub open spec fn ordinal(self) -> int {
        days_before_month(self.year as int, self.month as int) + self.day
    }

    /// The weekday of the date.
    pub open spec fn weekday(self) -> int {
        weekday_index(self.year as int, self.ordinal())
    }

    /// Whether there is such a day in the calendar.
    pub fn is_valid(&self) -> (valid: bool)
        ensures
            valid == self.valid(),
    {
        Date::new(self.year, self.month, self.day).is_some()
    }

    /// The date of the given year, month and day, where the calendar has it.
    pub fn new(year: i32, month: u8, day: u8) -> (date: Option<Date>)
        ensures
            date == if (Date { year, month, day }).valid() {
                Some(Date { year, month, day })
            } else {
                None
            },
    {
        if year < MIN_YEAR || year > MAX_YEAR || month < 1 || month > 12 || day < 1 {
            return None;
        }
        let length: u8 = if month == 2 {
            if leap_year(year) {
                29
            } else {
                28
            }
        } else if month == 4 || month == 6 || month == 9 || month == 11 {
            30
        } else {
            31
        };
        if day <= length {
            Some(Date { year, month, day })
        } else {
            None
        }
    }
}

/// The day of the year of a date lies within the year, and the 31st of
/// December is the last day of its year.
pub proof fn lemma_ordinal_bounds(date: Date)
    requires
        date.valid(),
    ensures
        1 <= date.ordinal() <= days_in_year(date.year as int),
        date.month == 1 && date.day == 1 ==> date.ordinal() == 1,
        date.month == 12 && date.day == 31 ==> date.ordinal() == days_in_year(date.year as int),
{
    reveal_with_fuel(days_before_month, 13);
}

/// No two dates of a year are the same day of the year: the year and the day
/// of the year tell the date.
pub proof fn lemma_ordinal_tells_date(a: Date, b: Date)
    requires
        a.valid(),
        b.valid(),
        a.year == b.year,
        a.ordinal() == b.ordinal(),
    ensures
        a == b,
{
    reveal_with_fuel(days_before_month, 13);
}

/// The number of days from the first of January of the date's year to the
/// date, by `chrono::NaiveDate::signed_duration_since` and
/// `chrono::TimeDelta::num_days`. Trusted: in chrono's calendar, which is the
/// proleptic Gregorian one, that is the day of the year less one.
#[verifier::external_body]
pub(crate) fn days_since_new_year(date: &Date) -> (days: i64)
    requires
        date.valid(),
    ensures
        days == date.ordinal() - 1,
{
    let day = NaiveDate::from_ymd_opt(date.year, u32::from(date.month), u32::from(date.day)).unwrap();
    let first = NaiveDate::from_ymd_opt(date.year, 1, 1).unwrap();
    day.signed_duration_since(first).num_days()
}

/// The weekday of a date, by `chrono::NaiveDate::weekday` and
/// `chrono::Weekday::num_days_from_monday`. Trusted: chrono counts the days of
/// the proleptic Gregorian calendar, in which the first of January of the
/// year 1 is a Monday, and gives Monday as 0 and Sunday as 6.
#[verifier::external_body]
pub(crate) fn weekday_from_monday(date: &Date) -> (index: u8)
    requires
        date.valid(),
    ensures
        index == date.weekday(),
{
    let day = NaiveDate::from_ymd_opt(date.year, u32::from(date.month), u32::from(date.day)).unwrap();
    day.weekday().num_days_from_monday() as u8
}

/// The date of this moment in UTC, by `chrono::Utc::now`. Trusted: whatever
/// the clock says, chrono hands out a date of its calendar.
#[verifier::external_body]
fn utc_today() -> (today: Date)
    ensures
        today.valid(),
{
    let now = Utc::now().date_naive();
    Date { year: now.year(), month: now.month() as u8, day: now.day() as u8 }
}

/// The date of today in UTC.
pub fn today() -> (date: Date)
    ensures
        date.valid(),
{
    utc_today()
}

/// The weekday of a date.
pub fn weekday(date: &Date) -> (day: Day)
    requires
        date.valid(),
    ensures
        day == Day::at(date.weekday()),
        day.index() == date.weekday(),
{
    let index = weekday_from_monday(date);
    match Day::from_position(index) {
        Some(day) => day,
        None => Day::Sunday,
    }
}

/// Whether `year` is leap, by the Gregorian rule.
pub fn leap_year(year: i32) -> (leap: bool)
    ensures
        leap == is_leap_year(year as int),
{
    year % 4 == 0 && (year % 100 != 0 || year % 400 == 0)
}

} // verus!
