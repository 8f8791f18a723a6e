//! Instants of UTC, and what chrono says of them. chrono does the calendar
//! work; this module holds an instant as seconds and nanoseconds since the
//! Unix epoch and states what chrono's functions return for it.

use chrono::{DateTime, Datelike, TimeDelta, Timelike};
use vstd::prelude::*;

verus! {

/// An instant as numbers: whole seconds since the Unix epoch, leap seconds
/// not counted, and the nanoseconds into the second.
pub struct Moment {
    pub secs: int,
    pub nanos: int,
}

/// The instants that this module hands to chrono: a span of some 250,000
/// years to either side of the epoch, all of which chrono's
/// `DateTime<Utc>` can hold, with a fraction below one second.
pub open spec fn within_calendar(secs: int, nanos: int) -> bool {
    -8_000_000_000_000 <= secs <= 8_000_000_000_000 && 0 <= nanos < 1_000_000_000
}

/// Seconds since the last midnight, UTC.
pub open spec fn time_of_day(secs: int) -> int {
    secs % 86_400
}

/// The hour of the day, 0 to 23.
pub open spec fn hour_of(secs: int) -> int {
    time_of_day(secs) / 3_600
}

/// The minute of the hour, 0 to 59.
pub open spec fn minute_of(secs: int) -> int {
    (time_of_day(secs) % 3_600) / 60
}

/// The second of the minute, 0 to 59.
pub open spec fn second_of(secs: int) -> int {
    time_of_day(secs) % 60
}

/// The instant with the hour of the day changed to `hour`.
pub open spec fn at_hour(secs: int, hour: int) -> int {
    secs + (hour - hour_of(secs)) * 3_600
}

/// The instant with the minute of the hour changed to `minute`.
pub open spec fn at_minute(secs: int, minute: int) -> int {
    secs + (minute - minute_of(secs)) * 60
}

/// The instant with the second of the minute changed to `second`.
pub open spec fn at_second(secs: int, second: int) -> int {
    secs + (second - second_of(secs))
}

/// The year in which chrono's calendar puts an instant.
pub uninterp spec fn calendar_year(secs: int, nanos: int) -> int;

/// The month in which chrono's calendar puts an instant, 1 for January.
pub uninterp spec fn calendar_month(secs: int, nanos: int) -> int;

/// The instant that chrono makes of an instant and another year; `None`
/// where it makes none.
pub uninterp spec fn calendar_with_year(secs: int, nanos: int, year: int) -> Option<(int, int)>;

/// The instant that chrono makes of an instant and another month; `None`
/// where it makes none.
pub uninterp spec fn calendar_with_month(secs: int, nanos: int, month: int) -> Option<(int, int)>;

/// The instant that chrono makes of an instant and another day of the
/// month; `None` where it makes none.
pub uninterp spec fn calendar_with_day(secs: int, nanos: int, day: int) -> Option<(int, int)>;

/// `Timelike::hour` of chrono's `DateTime<Utc>`: the hour number of the
/// time of day, which for UTC is the whole hours since midnight in Unix
/// time.
#[verifier::external_body]
pub(crate) fn utc_hour(secs: i64, nanos: u32) -> (hour: u32)
    requires
        within_calendar(secs as int, nanos as int),
    ensures
        hour == hour_of(secs as int),
{
    DateTime::from_timestamp(secs, nanos).unwrap().hour()
}

/// `Timelike::with_hour` of chrono's `DateTime<Utc>`: the same date,
/// minute, second and fraction with another hour, and `None` for an hour
/// above 23.
#[verifier::external_body]
pub(crate) fn utc_with_hour(secs: i64, nanos: u32, hour: u32) -> (changed: Option<(i64, u32)>)
    requires
        within_calendar(secs as int, nanos as int),
    ensures
        changed == if hour < 24 {
            Some((at_hour(secs as int, hour as int) as i64, nanos))
        } else {
            None
        },
{
    let changed = DateTime::from_timestamp(secs, nanos).unwrap().with_hour(hour)?;
    Some((changed.timestamp(), changed.timestamp_subsec_nanos()))
}

/// `Timelike::with_minute` of chrono's `DateTime<Utc>`: the same date,
/// hour, second and fraction with another minute, and `None` for a minute
/// above 59.
#[verifier::external_body]
pub(crate) fn utc_with_minute(secs: i64, nanos: u32, minute: u32) -> (changed: Option<(i64, u32)>)
    requires
        within_calendar(secs as int, nanos as int),
    ensures
        changed == if minute < 60 {
            Some((at_minute(secs as int, minute as int) as i64, nanos))
        } else {
            None
        },
{
    let changed = DateTime::from_timestamp(secs, nanos).unwrap().with_minute(minute)?;
    Some((changed.timestamp(), changed.timestamp_subsec_nanos()))
}

/// `Timelike::with_second` of chrono's `DateTime<Utc>`: the same date,
/// hour, minute and fraction with another second, and `None` for a second
/// above 59.
#[verifier::external_body]
pub(crate) fn utc_with_second(secs: i64, nanos: u32, second: u32) -> (changed: Option<(i64, u32)>)
    requires
        within_calendar(secs as int, nanos as int),
    ensures
        changed == if second < 60 {
            Some((at_second(secs as int, second as int) as i64, nanos))
        } else {
            None
        },
{
    let changed = DateTime::from_timestamp(secs, nanos).unwrap().with_second(second)?;
    Some((changed.timestamp(), changed.timestamp_subsec_nanos()))
}

/// `Timelike::with_nanosecond` of chrono's `DateTime<Utc>`: the same
/// second with another fraction, and `None` for a fraction of two seconds
/// or more.
#[verifier::external_body]
pub(crate) fn utc_with_nanosecond(secs: i64, nanos: u32, nano: u32) -> (changed: Option<(i64, u32)>)
    requires
        within_calendar(secs as int, nanos as int),
    ensures
        changed == if nano < 2_000_000_000 {
            Some((secs, nano))
        } else {
            None
        },
{
    let changed = DateTime::from_timestamp(secs, nanos).unwrap().with_nanosecond(nano)?;
    Some((changed.timestamp(), changed.timestamp_subsec_nanos()))
}

/// `+` of chrono's `DateTime<Utc>` and `TimeDelta::days`: the instant
/// `days` days of 86,400 seconds later, with the same fraction. The days
/// are so few that the sum stays within what chrono can hold.
#[verifier::external_body]
pub(crate) fn utc_plus_days(secs: i64, nanos: u32, days: i64) -> (later: (i64, u32))
    requires
        within_calendar(secs as int, nanos as int),
        -100_000 <= days <= 100_000,
    ensures
        later == ((secs + days * 86_400) as i64, nanos),
{
    let later = DateTime::from_timestamp(secs, nanos).unwrap() + TimeDelta::days(days);
    (later.timestamp(), later.timestamp_subsec_nanos())
}

/// `Datelike::year` of chrono's `DateTime<Utc>`. The contract names the
/// result, which the instant alone decides, and says that it lies between
/// the years of chrono's first and last date.
#[verifier::external_body]
pub(crate) fn utc_year(secs: i64, nanos: u32) -> (year: i32)
    requires
        within_calendar(secs as int, nanos as int),
    ensures
        year == calendar_year(secs as int, nanos as int),
        -262_143 <= year <= 262_142,
{
    DateTime::from_timestamp(secs, nanos).unwrap().year()
}

/// `Datelike::month` of chrono's `DateTime<Utc>`. The contract names the
/// result, which the instant alone decides, and says that it is 1 to 12.
#[verifier::external_body]
pub(crate) fn utc_month(secs: i64, nanos: u32) -> (month: u32)
    requires
        within_calendar(secs as int, nanos as int),
    ensures
        month == calendar_month(secs as int, nanos as int),
        1 <= month <= 12,
{
    DateTime::from_timestamp(secs, nanos).unwrap().month()
}

/// `Datelike::with_year` of chrono's `DateTime<Utc>`: the instant with the
/// year number changed, or `None`. The contract names the result, which
/// the instant and the year alone decide, and says no more of it.
#[verifier::external_body]
pub(crate) fn utc_with_year(secs: i64, nanos: u32, year: i32) -> (changed: Option<(i64, u32)>)
    requires
        within_calendar(secs as int, nanos as int),
    ensures
        match changed {
            Some((s, n)) => calendar_with_year(secs as int, nanos as int, year as int) == Some(
                (s as int, n as int),
            ),
            None => calendar_with_year(secs as int, nanos as int, year as int) is None,
        },
{
    let changed = DateTime::from_timestamp(secs, nanos).unwrap().with_year(year)?;
    Some((changed.timestamp(), changed.timestamp_subsec_nanos()))
}

/// `Datelike::with_month` of chrono's `DateTime<Utc>`: the instant with
/// the month number changed, or `None`. The contract names the result,
/// which the instant and the month alone decide, and says no more of it.
#[verifier::external_body]
pub(crate) fn utc_with_month(secs: i64, nanos: u32, month: u32) -> (changed: Option<(i64, u32)>)
    requires
        within_calendar(secs as int, nanos as int),
    ensures
        match changed {
            Some((s, n)) => calendar_with_month(secs as int, nanos as int, month as int) == Some(
                (s as int, n as int),
            ),
            None => calendar_with_month(secs as int, nanos as int, month as int) is None,
        },
{
    let changed = DateTime::from_timestamp(secs, nanos).unwrap().with_month(month)?;
    Some((changed.timestamp(), changed.timestamp_subsec_nanos()))
}

/// `Datelike::with_day` of chrono's `DateTime<Utc>`: the instant with the
/// day of the month changed, or `None`. The contract names the result,
/// which the instant and the day alone decide, and says no more of it.
#[verifier::external_body]
pub(crate) fn utc_with_day(secs: i64, nanos: u32, day: u32) -> (changed: Option<(i64, u32)>)
    requires
        within_calendar(secs as int, nanos as int),
    ensures
        match changed {
            Some((s, n)) => calendar_with_day(secs as int, nanos as int, day as int) == Some(
                (s as int, n as int),
            ),
            None => calendar_with_day(secs as int, nanos as int, day as int) is None,
        },
{
    let changed = DateTime::from_timestamp(secs, nanos).unwrap().with_day(day)?;
    Some((changed.timestamp(), changed.timestamp_subsec_nanos()))
}

impl Moment {
    /// The instants that a `UtcInstant` can be: some 125,000 years to
    /// either side of the Unix epoch, with a fraction below one second.
    pub open spec fn in_range(self) -> bool {
        -4_000_000_000_000 <= self.secs <= 4_000_000_000_000 && 0 <= self.nanos < 1_000_000_000
    }

    /// The instant of these numbers, if it is in range.
    pub open spec fn checked(secs: int, nanos: int) -> Option<Moment> {
        if (Moment { secs, nanos }).in_range() {
            Some(Moment { secs, nanos })
        } else {
            None
        }
    }

    /// A pair of numbers as an instant, if there is a pair and it is in
    /// range.
    pub open spec fn checked_pair(pair: Option<(int, int)>) -> Option<Moment> {
        match pair {
            Some((secs, nanos)) => Self::checked(secs, nanos),
            None => None,
        }
    }

    /// Whole milliseconds since the Unix epoch.
    pub open spec fn millis(self) -> int {
        self.secs * 1_000 + self.nanos / 1_000_000
    }

    pub open spec fn with_hour(self, hour: int) -> Option<Moment> {
        if hour < 24 {
            Self::checked(at_hour(self.secs, hour), self.nanos)
        } else {
            None
        }
    }

    pub open spec fn with_minute(self, minute: int) -> Option<Moment> {
        if minute < 60 {
            Self::checked(at_minute(self.secs, minute), self.nanos)
        } else {
            None
        }
    }

    pub open spec fn with_second(self, second: int) -> Option<Moment> {
        if second < 60 {
            Self::checked(at_second(self.secs, second), self.nanos)
        } else {
            None
        }
    }

    pub open spec fn with_nanosecond(self, nano: int) -> Option<Moment> {
        Self::checked(self.secs, nano)
    }

    pub open spec fn with_year(self, year: int) -> Option<Moment> {
        Self::checked_pair(calendar_with_year(self.secs, self.nanos, year))
    }

    pub open spec fn with_month(self, month: int) -> Option<Moment> {
        Self::checked_pair(calendar_with_month(self.secs, self.nanos, month))
    }

    pub open spec fn with_day(self, day: int) -> Option<Moment> {
        Self::checked_pair(calendar_with_day(self.secs, self.nanos, day))
    }
}

/// An instant of UTC, to the nanosecond.
#[derive(Clone, Copy, Debug)]
pub struct UtcInstant {
    secs: i64,
    nanos: u32,
}

impl View for UtcInstant {
    type V = Moment;

    closed spec fn view(&self) -> Moment {
        Moment { secs: self.secs as int, nanos: self.nanos as int }
    }
}

/// An instant that may be missing, as numbers.
pub open spec fn optional_moment(instant: Option<UtcInstant>) -> Option<Moment> {
    match instant {
        Some(instant) => Some(instant@),
        None => None,
    }
}

impl UtcInstant {
    #[verifier::type_invariant]
    closed spec fn inv(self) -> bool {
        self@.in_range()
    }

    /// The instant `secs` seconds and `nanos` nanoseconds after the Unix
    /// epoch, if it is in range.
    pub fn from_timestamp(secs: i64, nanos: u32) -> (instant: Option<UtcInstant>)
        ensures
            optional_moment(instant) == Moment::checked(secs as int, nanos as int),
    {
        if -4_000_000_000_000 <= secs && secs <= 4_000_000_000_000 && nanos < 1_000_000_000 {
            Some(UtcInstant { secs, nanos })
        } else {
            None
        }
    }

    /// Whole seconds since the Unix epoch.
    pub fn timestamp(&self) -> (secs: i64)
        ensures
            secs == self@.secs,
            self@.in_range(),
    {
        proof {
            use_type_invariant(self);
        }
        self.secs
    }

    /// Nanoseconds into the second.
    pub fn timestamp_subsec_nanos(&self) -> (nanos: u32)
        ensures
            nanos == self@.nanos,
            self@.in_range(),
    {
        proof {
            use_type_invariant(self);
        }
        self.nanos
    }

    /// Whole milliseconds since the Unix epoch.
    pub fn timestamp_millis(&self) -> (millis: i64)
        ensures
            millis == self@.millis(),
    {
        proof {
            use_type_invariant(self);
        }
        self.secs * 1_000 + (self.nanos / 1_000_000) as i64
    }

    /// The hour of the day, 0 to 23.
    pub fn hour(&self) -> (hour: u32)
        ensures
            hour == hour_of(self@.secs),
    {
        proof {
            use_type_invariant(self);
        }
        utc_hour(self.secs, self.nanos)
    }

    /// The year of the instant in chrono's calendar.
    pub fn year(&self) -> (year: i32)
        ensures
            year == calendar_year(self@.secs, self@.nanos),
            -262_143 <= year <= 262_142,
    {
        proof {
            use_type_invariant(self);
        }
        utc_year(self.secs, self.nanos)
    }

    /// The month of the instant in chrono's calendar, 1 to 12.
    pub fn month(&self) -> (month: u32)
        ensures
            month == calendar_month(self@.secs, self@.nanos),
            1 <= month <= 12,
    {
        proof {
            use_type_invariant(self);
        }
        utc_month(self.secs, self.nanos)
    }

    /// An instant of a pair of numbers, if there is a pair and it is in
    /// range.
    fn checked(pair: Option<(i64, u32)>) -> (instant: Option<UtcInstant>)
        ensures
            optional_moment(instant) == match pair {
                Some((s, n)) => Moment::checked(s as int, n as int),
                None => None,
            },
    {
        match pair {
            Some((secs, nanos)) => UtcInstant::from_timestamp(secs, nanos),
            None => None,
        }
    }

    /// The instant with another hour of the day.
    pub fn with_hour(&self, hour: u32) -> (changed: Option<UtcInstant>)
        ensures
            optional_moment(changed) == self@.with_hour(hour as int),
    {
        proof {
            use_type_invariant(self);
        }
        Self::checked(utc_with_hour(self.secs, self.nanos, hour))
    }

    /// The instant with another minute of the hour.
    pub fn with_minute(&self, minute: u32) -> (changed: Option<UtcInstant>)
        ensures
            optional_moment(changed) == self@.with_minute(minute as int),
    {
        proof {
            use_type_invariant(self);
        }
        Self::checked(utc_with_minute(self.secs, self.nanos, minute))
    }

    /// The instant with another second of the minute.
    pub fn with_second(&self, second: u32) -> (changed: Option<UtcInstant>)
        ensures
            optional_moment(changed) == self@.with_second(second as int),
    {
        proof {
            use_type_invariant(self);
        }
        Self::checked(utc_with_second(self.secs, self.nanos, second))
    }

    /// The instant with another fraction of the second, which must be
    /// below one second.
    pub fn with_nanosecond(&self, nano: u32) -> (changed: Option<UtcInstant>)
        ensures
            optional_moment(changed) == self@.with_nanosecond(nano as int),
    {
        proof {
            use_type_invariant(self);
        }
        Self::checked(utc_with_nanosecond(self.secs, self.nanos, nano))
    }

    /// The instant in another year, as chrono makes it.
    pub fn with_year(&self, year: i32) -> (changed: Option<UtcInstant>)
        ensures
            optional_moment(changed) == self@.with_year(year as int),
    {
        proof {
            use_type_invariant(self);
        }
        Self::checked(utc_with_year(self.secs, self.nanos, year))
    }

    /// The instant in another month, as chrono makes it.
    pub fn with_month(&self, month: u32) -> (changed: Option<UtcInstant>)
        ensures
            optional_moment(changed) == self@.with_month(month as int),
    {
        proof {
            use_type_invariant(self);
        }
        Self::checked(utc_with_month(self.secs, self.nanos, month))
    }

    /// The instant on another day of the month, as chrono makes it.
    pub fn with_day(&self, day: u32) -> (changed: Option<UtcInstant>)
        ensures
            optional_moment(changed) == self@.with_day(day as int),
    {
        proof {
            use_type_invariant(self);
        }
        Self::checked(utc_with_day(self.secs, self.nanos, day))
    }
}

} // verus!
