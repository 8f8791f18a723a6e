use chrono::{DateTime, Datelike, TimeZone, Timelike, Utc};
use youtube_proxy::instant::UtcInstant;

fn to_instant(time: DateTime<Utc>) -> UtcInstant {
    UtcInstant::from_timestamp(time.timestamp(), time.timestamp_subsec_nanos()).unwrap()
}

fn to_chrono(instant: UtcInstant) -> DateTime<Utc> {
    DateTime::from_timestamp(instant.timestamp(), instant.timestamp_subsec_nanos()).unwrap()
}

/// What the library makes of chrono's answer: instants beyond its range
/// are refused.
fn kept(time: Option<DateTime<Utc>>) -> Option<DateTime<Utc>> {
    time.filter(|time| time.timestamp().abs() <= 4_000_000_000_000)
}

fn samples() -> Vec<DateTime<Utc>> {
    vec![
        DateTime::from_timestamp(4_000_000_000_000, 999_999_999).unwrap(),
        DateTime::from_timestamp(-4_000_000_000_000, 0).unwrap(),
        DateTime::from_timestamp(3_999_999_913_600, 1).unwrap(),
        Utc.with_ymd_and_hms(1970, 1, 1, 0, 0, 0).unwrap(),
        Utc.with_ymd_and_hms(1969, 12, 31, 23, 59, 59).unwrap().with_nanosecond(999_999_999).unwrap(),
        Utc.with_ymd_and_hms(2020, 2, 29, 12, 34, 56).unwrap().with_nanosecond(789_000_000).unwrap(),
        Utc.with_ymd_and_hms(2023, 1, 31, 5, 0, 7).unwrap(),
        Utc.with_ymd_and_hms(1600, 3, 31, 18, 59, 0).unwrap(),
        Utc.with_ymd_and_hms(9999, 12, 31, 23, 59, 59).unwrap(),
    ]
}

#[test]
fn an_instant_keeps_its_numbers() {
    let instant = UtcInstant::from_timestamp(1_431_648_000, 5).unwrap();
    assert_eq!(instant.timestamp(), 1_431_648_000);
    assert_eq!(instant.timestamp_subsec_nanos(), 5);
    assert_eq!(instant.timestamp_millis(), 1_431_648_000_000);
    let instant = UtcInstant::from_timestamp(-1, 999_000_000).unwrap();
    assert_eq!(instant.timestamp_millis(), -1);
}

#[test]
fn instants_out_of_range_are_refused() {
    assert!(UtcInstant::from_timestamp(4_000_000_000_000, 0).is_some());
    assert!(UtcInstant::from_timestamp(4_000_000_000_001, 0).is_none());
    assert!(UtcInstant::from_timestamp(-4_000_000_000_000, 999_999_999).is_some());
    assert!(UtcInstant::from_timestamp(-4_000_000_000_001, 0).is_none());
    assert!(UtcInstant::from_timestamp(0, 1_000_000_000).is_none());
}

#[test]
fn the_clock_reads_as_chrono_reads_it() {
    for time in samples() {
        let instant = to_instant(time);
        assert_eq!(instant.hour(), time.hour());
        assert_eq!(instant.year(), time.year());
        assert_eq!(instant.month(), time.month());
        assert_eq!(instant.timestamp_millis(), time.timestamp_millis());
    }
}

#[test]
fn the_time_of_day_changes_as_chrono_changes_it() {
    for time in samples() {
        let instant = to_instant(time);
        for hour in [0, 9, 23, 24, 100] {
            assert_eq!(instant.with_hour(hour).map(to_chrono), kept(time.with_hour(hour)));
        }
        for minute in [0, 1, 59, 60] {
            assert_eq!(instant.with_minute(minute).map(to_chrono), kept(time.with_minute(minute)));
        }
        for second in [0, 30, 59, 60] {
            assert_eq!(instant.with_second(second).map(to_chrono), kept(time.with_second(second)));
        }
        for nano in [0, 1, 999_999_999] {
            assert_eq!(instant.with_nanosecond(nano).map(to_chrono), kept(time.with_nanosecond(nano)));
        }
    }
}

#[test]
fn a_fraction_of_a_second_or_more_is_refused() {
    let instant = to_instant(Utc.with_ymd_and_hms(2016, 12, 31, 23, 59, 59).unwrap());
    assert!(instant.with_nanosecond(1_000_000_000).is_none());
    assert!(instant.with_nanosecond(2_000_000_000).is_none());
}

#[test]
fn the_date_changes_as_chrono_changes_it() {
    for time in samples() {
        let instant = to_instant(time);
        for day in [0, 1, 28, 29, 30, 31, 32] {
            assert_eq!(instant.with_day(day).map(to_chrono), kept(time.with_day(day)));
        }
        for month in [0, 1, 2, 4, 12, 13] {
            assert_eq!(instant.with_month(month).map(to_chrono), kept(time.with_month(month)));
        }
        for year in [-5, 0, 1900, 2019, 2020, 2400] {
            assert_eq!(instant.with_year(year).map(to_chrono), kept(time.with_year(year)));
        }
    }
}

#[test]
fn a_changed_date_out_of_range_is_refused() {
    let instant = to_instant(Utc.with_ymd_and_hms(2020, 6, 15, 0, 0, 0).unwrap());
    assert!(instant.with_year(200_000).is_none());
    assert!(instant.with_year(-200_000).is_none());
    assert!(instant.with_year(100_000).is_some());
}

#[test]
fn a_changed_time_of_day_out_of_range_is_refused() {
    let last = UtcInstant::from_timestamp(4_000_000_000_000, 0).unwrap();
    assert_eq!(last.hour(), 7);
    assert!(last.with_hour(8).is_none());
    assert!(last.with_hour(7).is_some());
    assert!(last.with_hour(6).is_some());
    let first = UtcInstant::from_timestamp(-4_000_000_000_000, 0).unwrap();
    assert_eq!(first.hour(), 16);
    assert!(first.with_hour(15).is_none());
    assert!(first.with_hour(16).is_some());
}

/// Seconds since the epoch, spread over the range, some on the marks of
/// days and hours and some beside them.
fn spread() -> Vec<i64> {
    let mut seconds = vec![0, 1, -1, 59, 60, 3_599, 3_600, 86_399, 86_400, -86_400, -86_401];
    let mut next: i64 = 12_345;
    for _ in 0..2_000 {
        next = (next.wrapping_mul(6_364_136_223_846_793_005).wrapping_add(1_442_695_040_888_963_407))
            .rem_euclid(7_999_999_000_000);
        seconds.push(next - 3_999_999_000_000);
    }
    seconds
}

#[test]
fn the_clock_is_counted_from_midnight() {
    for secs in spread() {
        let instant = UtcInstant::from_timestamp(secs, 7).unwrap();
        let time_of_day = secs.rem_euclid(86_400);
        assert_eq!(instant.hour() as i64, time_of_day / 3_600);
        let hour = time_of_day / 3_600;
        let minute = time_of_day % 3_600 / 60;
        let second = time_of_day % 60;
        for to in [0u32, 9, 23] {
            let changed = instant.with_hour(to).unwrap();
            assert_eq!(changed.timestamp(), secs + (to as i64 - hour) * 3_600);
            assert_eq!(changed.timestamp_subsec_nanos(), 7);
        }
        for to in [0u32, 1, 59] {
            let changed = instant.with_minute(to).unwrap();
            assert_eq!(changed.timestamp(), secs + (to as i64 - minute) * 60);
            assert_eq!(changed.timestamp_subsec_nanos(), 7);
        }
        for to in [0u32, 30, 59] {
            let changed = instant.with_second(to).unwrap();
            assert_eq!(changed.timestamp(), secs + (to as i64 - second));
            assert_eq!(changed.timestamp_subsec_nanos(), 7);
        }
        let changed = instant.with_nanosecond(999_999_999).unwrap();
        assert_eq!(changed.timestamp(), secs);
        assert_eq!(changed.timestamp_subsec_nanos(), 999_999_999);
    }
}
