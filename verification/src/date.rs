//! Calendar dates as day counts, with the calendar itself left to `chrono`.

use vstd::prelude::*;
use chrono::{NaiveDate, Utc};

verus! {

/// First day that the calendar represents, counted from 1970-01-01: the
/// first of January of the year -262143.
pub const MIN_EPOCH_DAY: i32 = -96_465_292;

/// Last day that the calendar represents, counted from 1970-01-01: the
/// 31st of December of the year 262142.
pub const MAX_EPOCH_DAY: i32 = 95_026_236;

/// Seconds in a day.
pub const SECONDS_PER_DAY: i64 = 86_400;

/// Whether a day count from 1970-01-01 is a day of the calendar.
pub open spec fn is_calendar_day(days: int) -> bool {
    MIN_EPOCH_DAY <= days <= MAX_EPOCH_DAY
}

/// The day of the proleptic Gregorian calendar with the given year, month
/// and day of the month, counted from 1970-01-01, as
/// `chrono::NaiveDate::from_ymd_opt` and `to_epoch_days` give it; `None`
/// where there is no such day.
pub uninterp spec fn civil_epoch_day(year: int, month: int, day: int) -> Option<int>;

/// The text of a day, given by its count from 1970-01-01, as `chrono` writes
/// it for the format `%Y-%m-%d`.
pub uninterp spec fn iso_date(epoch_day: int) -> Seq<char>;

/// A calendar day.
#[derive(Debug, Clone, Copy, PartialEq, Eq, Structural)]
pub struct Date {
    days: i32,
}

impl View for Date {
    type V = int;

    /// The number of days from 1970-01-01 to this day.
    closed spec fn view(&self) -> int {
        self.days as int
    }
}

/// The day count of a date that may be absent.
pub open spec fn day_of(date: Option<Date>) -> Option<int> {
    match date {
        Some(d) => Some(d@),
        None => None,
    }
}

/// Calls `chrono::NaiveDate::from_ymd_opt` and, on a date, `to_epoch_days`.
/// The contract names the result; it claims nothing about which triples are
/// dates.
#[verifier::external_body]
fn civil_to_epoch_days(year: i32, month: u32, day: u32) -> (r: Option<i32>)
    ensures
        match r {
            Some(n) => civil_epoch_day(year as int, month as int, day as int) == Some(n as int),
            None => civil_epoch_day(year as int, month as int, day as int) is None,
        },
{
    match NaiveDate::from_ymd_opt(year, month, day) {
        Some(date) => Some(date.to_epoch_days()),
        None => None,
    }
}

/// Calls `chrono::Utc::now` and takes the date of that moment with
/// `date_naive` and `to_epoch_days`. The contract claims only that the day is
/// one of the calendar. `Utc::now` panics where the system clock stands
/// before 1970.
#[verifier::external_body]
fn utc_today_epoch_days() -> (days: i32)
    ensures
        is_calendar_day(days as int),
{
    Utc::now().date_naive().to_epoch_days()
}

/// Calls `chrono::NaiveDate::from_epoch_days` and writes the date with
/// `format("%Y-%m-%d")`. The contract names the text. Every day from
/// `MIN_EPOCH_DAY` to `MAX_EPOCH_DAY` is a date to `chrono`.
#[verifier::external_body]
fn iso_text(days: i32) -> (text: String)
    requires
        is_calendar_day(days as int),
    ensures
        text@ == iso_date(days as int),
{
    match NaiveDate::from_epoch_days(days) {
        Some(date) => date.format("%Y-%m-%d").to_string(),
        None => String::new(),
    }
}

impl Date {
    #[verifier::type_invariant]
    spec fn in_calendar(self) -> bool {
        is_calendar_day(self.days as int)
    }

    /// The day `days` days after 1970-01-01, if the calendar has it.
    pub fn from_epoch_days(days: i32) -> (r: Option<Date>)
        ensures
            is_calendar_day(days as int) ==> r is Some && r->Some_0@ == days,
            !is_calendar_day(days as int) ==> r is None,
    {
        if MIN_EPOCH_DAY <= days && days <= MAX_EPOCH_DAY {
            Some(Date { days })
        } else {
            None
        }
    }

    /// The day with the given year, month and day of the month.
    pub fn from_ymd(year: i32, month: u32, day: u32) -> (r: Option<Date>)
        ensures
            match civil_epoch_day(year as int, month as int, day as int) {
                Some(n) => if is_calendar_day(n) {
                    r is Some && r->Some_0@ == n
                } else {
                    r is None
                },
                None => r is None,
            },
    {
        match civil_to_epoch_days(year, month, day) {
            Some(days) => Date::from_epoch_days(days),
            None => None,
        }
    }

    /// Today's date by the system clock, in UTC: a day of the calendar, whichever the clock says.
    pub fn today() -> (r: Date)
        ensures
            is_calendar_day(r@),
    {
        let days = utc_today_epoch_days();
        Date { days }
    }

    /// The number of days from 1970-01-01 to this day.
    pub fn to_epoch_days(&self) -> (days: i32)
        ensures
            days == self@,
            is_calendar_day(days as int),
    {
        proof {
            use_type_invariant(self);
        }
        self.days
    }

    /// The number of days from `other` to this day; negative where this day
    /// is the earlier one.
    pub fn days_since(&self, other: &Date) -> (days: i64)
        ensures
            days == self@ - other@,
    {
        self.days as i64 - other.days as i64
    }

    /// Seconds from 1970-01-01 00:00:00 UTC to the start of this day.
    pub fn timestamp(&self) -> (seconds: i64)
        ensures
            seconds == self@ * SECONDS_PER_DAY,
    {
        proof {
            use_type_invariant(self);
        }
        self.days as i64 * SECONDS_PER_DAY
    }

    /// The date as text: year, month and day, separated by hyphens.
    pub fn to_iso(&self) -> (text: String)
        ensures
            text@ == iso_date(self@),
    {
        proof {
            use_type_invariant(self);
        }
        iso_text(self.days)
    }
}

} // verus!
