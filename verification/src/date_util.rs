//! Months: their lengths, and the instants at which one begins and ends.

use crate::instant::{calendar_month, calendar_year, optional_moment, Moment, UtcInstant};
use vstd::prelude::*;

verus! {

/// The leap years of the Gregorian calendar.
pub open spec fn leap_year(year: int) -> bool {
    year % 4 == 0 && (year % 100 != 0 || year % 400 == 0)
}

/// The number of days of a month; months count from 1 for January.
pub open spec fn month_length(month: int, year: int) -> int {
    if month == 2 {
        if leap_year(year) {
            29
        } else {
            28
        }
    } else if month == 4 || month == 6 || month == 9 || month == 11 {
        30
    } else {
        31
    }
}

/// The number of days of month `month` of `year`, where January is month
/// 1 and December month 12.
pub fn days_in_month(month: u8, year: u32) -> (days: u8)
    requires
        1 <= month <= 12,
    ensures
        days == month_length(month as int, year as int),
{
    match month {
        2 => {
            if is_leap_year(year) {
                29
            } else {
                28
            }
        },
        4 | 6 | 9 | 11 => 30,
        _ => 31,
    }
}

/// Whether `year` is a leap year of the Gregorian calendar.
pub fn is_leap_year(year: u32) -> (leap: bool)
    ensures
        leap == leap_year(year as int),
{
    (year % 4 == 0) && (year % 100 != 0 || year % 400 == 0)
}

/// `first`, and then `next` of it, where both are there.
pub open spec fn and_then(first: Option<Moment>, next: spec_fn(Moment) -> Option<Moment>) -> Option<
    Moment,
> {
    match first {
        Some(moment) => next(moment),
        None => None,
    }
}

/// The instant on day `day` of its month at the given time of day.
pub open spec fn on_day_at(
    moment: Moment,
    day: int,
    hour: int,
    minute: int,
    second: int,
    nano: int,
) -> Option<Moment> {
    and_then(
        and_then(
            and_then(
                and_then(moment.with_day(day), |m: Moment| m.with_hour(hour)),
                |m: Moment| m.with_minute(minute),
            ),
            |m: Moment| m.with_second(second),
        ),
        |m: Moment| m.with_nanosecond(nano),
    )
}

/// Midnight before the first day of the month of `moment`.
pub open spec fn start_of_month(moment: Moment) -> Option<Moment> {
    on_day_at(moment, 1, 0, 0, 0, 0)
}

/// The number of the last day of the month of `moment`. The year counts
/// as the unsigned number of the same 32 bits.
pub open spec fn last_day(moment: Moment) -> int {
    month_length(
        calendar_month(moment.secs, moment.nanos),
        (calendar_year(moment.secs, moment.nanos) as i32) as u32 as int,
    )
}

/// The last nanosecond of the last day of the month of `moment`.
pub open spec fn end_of_month(moment: Moment) -> Option<Moment> {
    on_day_at(moment, last_day(moment), 23, 59, 59, 999_999_999)
}

/// The instant `count` months before `moment`, within the year that lies
/// `count / 12` years back: there is none where the remaining months reach
/// back to the year before that.
pub open spec fn months_before(moment: Moment, count: int) -> Option<Moment> {
    let years = count / 12;
    let months = count - years * 12;
    let month = calendar_month(moment.secs, moment.nanos);
    if months >= month {
        None
    } else {
        and_then(
            moment.with_year(calendar_year(moment.secs, moment.nanos) - years),
            |m: Moment| m.with_month(month - months),
        )
    }
}

/// The first and the last instant of the month of `moment`.
pub open spec fn month_surround(moment: Moment) -> Option<(Moment, Moment)> {
    match start_of_month(moment) {
        Some(start) => match end_of_month(start) {
            Some(end) => Some((start, end)),
            None => None,
        },
        None => None,
    }
}

/// A pair of instants that may be missing, as numbers.
pub open spec fn optional_moments(pair: Option<(UtcInstant, UtcInstant)>) -> Option<
    (Moment, Moment),
> {
    match pair {
        Some((start, end)) => Some((start@, end@)),
        None => None,
    }
}

/// Where an instant lies in its month. Each function answers `None` where
/// chrono's calendar has no such instant, or the instant is out of range.
pub trait DateExt: Sized {
    fn into_start_of_month(self) -> Option<Self>;

    fn into_end_of_month(self) -> Option<Self>;

    fn minus_months(self, count: u32) -> Option<Self>;

    fn into_month_surround(self) -> Option<(Self, Self)>;
}

/// The instant on day `day` of its month at the given time of day.
fn at_day_and_time(
    instant: UtcInstant,
    day: u32,
    hour: u32,
    minute: u32,
    second: u32,
    nano: u32,
) -> (moved: Option<UtcInstant>)
    ensures
        optional_moment(moved) == on_day_at(
            instant@,
            day as int,
            hour as int,
            minute as int,
            second as int,
            nano as int,
        ),
{
    let on_day = match instant.with_day(day) {
        Some(t) => t,
        None => {
            return None;
        },
    };
    let at_hour = match on_day.with_hour(hour) {
        Some(t) => t,
        None => {
            return None;
        },
    };
    let at_minute = match at_hour.with_minute(minute) {
        Some(t) => t,
        None => {
            return None;
        },
    };
    let at_second = match at_minute.with_second(second) {
        Some(t) => t,
        None => {
            return None;
        },
    };
    at_second.with_nanosecond(nano)
}

impl DateExt for UtcInstant {
    fn into_start_of_month(self) -> (start: Option<UtcInstant>)
        ensures
            optional_moment(start) == start_of_month(self@),
    {
        at_day_and_time(self, 1, 0, 0, 0, 0)
    }

    fn into_end_of_month(self) -> (end: Option<UtcInstant>)
        ensures
            optional_moment(end) == end_of_month(self@),
    {
        let year = self.year();
        let days = days_in_month(self.month() as u8, #[verifier::truncate] (year as u32));
        at_day_and_time(self, days as u32, 23, 59, 59, 999_999_999)
    }

    fn minus_months(self, count: u32) -> (earlier: Option<UtcInstant>)
        ensures
            optional_moment(earlier) == months_before(self@, count as int),
    {
        let years = count / 12;
        let months = count - (years * 12);
        let month = self.month();
        if months >= month {
            return None;
        }
        match self.with_year(self.year() - years as i32) {
            Some(in_year) => in_year.with_month(month - months),
            None => None,
        }
    }

    fn into_month_surround(self) -> (surround: Option<(UtcInstant, UtcInstant)>)
        ensures
            optional_moments(surround) == month_surround(self@),
    {
        let start = match self.into_start_of_month() {
            Some(start) => start,
            None => {
                return None;
            },
        };
        match start.clone().into_end_of_month() {
            Some(end) => Some((start, end)),
            None => None,
        }
    }
}

/// The first and the last instant of the month that lies `month_count`
/// months before `from`.
pub fn get_start_and_end_for_previous_month(from: UtcInstant, month_count: u32) -> (surround: Option<
    (UtcInstant, UtcInstant),
>)
    ensures
        optional_moments(surround) == match months_before(from@, month_count as int) {
            Some(earlier) => month_surround(earlier),
            None => None,
        },
{
    match from.minus_months(month_count) {
        Some(earlier) => earlier.into_month_surround(),
        None => None,
    }
}

} // verus!
