//! Calendar dates in the proleptic Gregorian calendar, as `chrono` counts them.

use chrono::{Datelike, NaiveDate, TimeDelta};
use vstd::prelude::*;

verus! {

/// First year that `chrono::NaiveDate` represents.
pub const MIN_YEAR: i32 = -262_143;

/// Last year that `chrono::NaiveDate` represents.
pub const MAX_YEAR: i32 = 262_142;

/// A calendar date: year, month (1 to 12) and day of the month (from 1).
#[derive(Clone, Copy, Debug, PartialEq, Eq, Structural)]
pub struct CalendarDate {
    /// The year.
    pub year: i32,
    /// The month, from 1 to 12.
    pub month: u32,
    /// The day of the month, from 1.
    pub day: u32,
}

/// Whether `year` is a leap year of the Gregorian calendar.
pub open spec fn is_leap_year(year: int) -> bool {
    (year % 4 == 0 && year % 100 != 0) || year % 400 == 0
}

/// Number of days in `month` of `year`.
pub open spec fn days_in_month(year: int, month: int) -> int {
    if month == 2 {
        if is_leap_year(year) { 29 } else { 28 }
    } else if month == 4 || month == 6 || month == 9 || month == 11 {
        30
    } else {
        31
    }
}

/// Whether `date` exists and lies in the range that `chrono` represents.
pub open spec fn is_valid_date(date: CalendarDate) -> bool {
    &&& MIN_YEAR <= date.year <= MAX_YEAR
    &&& 1 <= date.month <= 12
    &&& 1 <= date.day <= days_in_month(date.year as int, date.month as int)
}

/// The day after `date`.
pub open spec fn successor(date: CalendarDate) -> CalendarDate {
    if date.day < days_in_month(date.year as int, date.month as int) {
        CalendarDate { year: date.year, month: date.month, day: (date.day + 1) as u32 }
    } else if date.month < 12 {
        CalendarDate { year: date.year, month: (date.month + 1) as u32, day: 1 }
    } else {
        CalendarDate { year: (date.year + 1) as i32, month: 1, day: 1 }
    }
}

/// What adding one day to `date` gives: the next day when both it and `date`
/// are dates that `chrono` represents, and nothing otherwise.
pub open spec fn next_day(date: CalendarDate) -> Option<CalendarDate> {
    if is_valid_date(date) && successor(date).year <= MAX_YEAR {
        Some(successor(date))
    } else {
        None
    }
}

/// `chrono::NaiveDate::checked_add_signed` with one day, on the date
/// `NaiveDate::from_ymd_opt` makes of `date`: the following calendar day, or
/// `None` when `date` is not a date or its successor is past `NaiveDate::MAX`.
#[verifier::external_body]
pub fn following_day(date: &CalendarDate) -> (next: Option<CalendarDate>)
    ensures
        next == next_day(*date),
{
    match NaiveDate::from_ymd_opt(date.year, date.month, date.day) {
        Some(day) => match day.checked_add_signed(TimeDelta::days(1)) {
            Some(after) => Some(CalendarDate { year: after.year(), month: after.month(), day: after.day() }),
            None => None,
        },
        None => None,
    }
}

} // verus!
