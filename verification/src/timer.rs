//! The daily reset of the key pool: how long to sleep until the next reset,
//! and the reset itself. The reset falls on `RESET_HOUR`:`RESET_MINUTE` UTC.

use crate::instant::{
    at_hour, at_minute, at_second, hour_of, minute_of, second_of, time_of_day, utc_hour,
    utc_plus_days, utc_with_hour, utc_with_minute, utc_with_second, Moment, UtcInstant,
};
use crate::key_manager::KeyManager;
use vstd::prelude::*;

verus! {

/// Hour of the day, UTC, of the reset.
pub const RESET_HOUR: u32 = 9;

/// Minute of that hour at which the reset runs.
pub const RESET_MINUTE: u32 = 1;

/// The instant of the first reset after `now`: `RESET_HOUR`:`RESET_MINUTE`
/// of the same day while the hour of `now` is before `RESET_HOUR`, else of
/// the day after. The fraction of the second is that of `now`.
pub open spec fn next_reset(now: Moment) -> Moment {
    let same_day = at_second(at_minute(at_hour(now.secs, RESET_HOUR as int), RESET_MINUTE as int), 0);
    Moment {
        secs: if hour_of(now.secs) < RESET_HOUR {
            same_day
        } else {
            same_day + 86_400
        },
        nanos: now.nanos,
    }
}

/// Milliseconds from `now` to the next reset.
pub open spec fn wait_time(now: Moment) -> int {
    if next_reset(now).millis() > now.millis() {
        next_reset(now).millis() - now.millis()
    } else {
        0
    }
}

/// How long to sleep at `now` until the next reset is due, in
/// milliseconds.
pub fn calc_wait_time(now: UtcInstant) -> (wait: u64)
    ensures
        wait == wait_time(now@),
{
    let secs = now.timestamp();
    let nanos = now.timestamp_subsec_nanos();
    let (at_hour, _) = utc_with_hour(secs, nanos, RESET_HOUR).unwrap();
    let (at_minute, _) = utc_with_minute(at_hour, nanos, RESET_MINUTE).unwrap();
    let (same_day, _) = utc_with_second(at_minute, nanos, 0).unwrap();
    let reset_time = if utc_hour(secs, nanos) < RESET_HOUR {
        same_day
    } else {
        utc_plus_days(same_day, nanos, 1).0
    };
    let fraction = (nanos / 1_000_000) as i64;
    let reset_millis = reset_time * 1_000 + fraction;
    let now_millis = now.timestamp_millis();
    if reset_millis > now_millis {
        (reset_millis - now_millis) as u64
    } else {
        0
    }
}

/// The parts of an instant: whole days, then hour, minute and second of
/// the time of day.
proof fn lemma_clock_parts(secs: int)
    ensures
        0 <= time_of_day(secs) < 86_400,
        0 <= hour_of(secs) < 24,
        0 <= minute_of(secs) < 60,
        0 <= second_of(secs) < 60,
        time_of_day(secs) == hour_of(secs) * 3_600 + minute_of(secs) * 60 + second_of(secs),
        secs == (secs / 86_400) * 86_400 + time_of_day(secs),
{
    let t = time_of_day(secs);
    let in_hour = t % 3_600;
    assert(t == (t / 3_600) * 3_600 + in_hour);
    assert(in_hour == (in_hour / 60) * 60 + in_hour % 60);
    assert(in_hour % 60 == t % 60);
}

/// An instant from its parts.
proof fn lemma_clock_of_parts(days: int, hour: int, minute: int, second: int)
    requires
        0 <= hour < 24,
        0 <= minute < 60,
        0 <= second < 60,
    ensures
        ({
            let secs = days * 86_400 + hour * 3_600 + minute * 60 + second;
            &&& time_of_day(secs) == hour * 3_600 + minute * 60 + second
            &&& hour_of(secs) == hour
            &&& minute_of(secs) == minute
            &&& second_of(secs) == second
        }),
{
    let t = hour * 3_600 + minute * 60 + second;
    let secs = days * 86_400 + t;
    assert(0 <= t < 86_400);
    assert(secs % 86_400 == t);
    let in_hour = minute * 60 + second;
    assert(t / 3_600 == hour && t % 3_600 == in_hour);
    assert(in_hour / 60 == minute);
    assert(t % 60 == second);
}

/// The wait by the clock: from a time of day before `RESET_HOUR` o'clock
/// it lasts until `RESET_HOUR`:`RESET_MINUTE` of that day, from a later
/// one until that time of the next day, counted from the last full second.
/// So it is always more than a minute and never more than a day and a
/// minute, and the reset instant lies after `now`. From 8 o'clock sharp it
/// is an hour and a minute, from 10 o'clock sharp 23 hours and a minute.
pub proof fn law_wait_time_by_the_clock(now: Moment)
    requires
        0 <= now.nanos < 1_000_000_000,
    ensures
        wait_time(now) == ((if hour_of(now.secs) < 9 {
            32_460
        } else {
            118_860int
        }) - time_of_day(now.secs)) * 1_000,
        60_000 < wait_time(now) <= 86_460_000,
        now.millis() + wait_time(now) == next_reset(now).millis(),
        time_of_day(next_reset(now).secs) == 32_460,
        next_reset(now).nanos == now.nanos,
        time_of_day(now.secs) == 8 * 3_600 ==> wait_time(now) == 3_660_000,
        time_of_day(now.secs) == 10 * 3_600 ==> wait_time(now) == 82_860_000,
{
    let secs = now.secs;
    lemma_clock_parts(secs);
    let days = secs / 86_400;
    let first = at_hour(secs, 9);
    lemma_clock_of_parts(days, 9, minute_of(secs), second_of(secs));
    assert(first == days * 86_400 + 9 * 3_600 + minute_of(secs) * 60 + second_of(secs));
    let second = at_minute(first, 1);
    lemma_clock_of_parts(days, 9, 1, second_of(secs));
    assert(second == days * 86_400 + 9 * 3_600 + 1 * 60 + second_of(secs));
    let third = at_second(second, 0);
    lemma_clock_of_parts(days, 9, 1, 0);
    assert(third == days * 86_400 + 9 * 3_600 + 1 * 60 + 0);
    lemma_clock_of_parts(days + 1, 9, 1, 0);
}

/// Runs the reset: every key of the pool gets its default budget again.
pub fn trigger(key_manager: &mut KeyManager)
    ensures
        final(key_manager).wf(),
        final(key_manager)@ == old(key_manager)@.reset(),
{
    key_manager.reset_keys()
}

} // verus!
