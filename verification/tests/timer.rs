use chrono::{DateTime, TimeZone, Timelike, Utc};
use youtube_proxy::instant::UtcInstant;
use youtube_proxy::key_manager::KeyManager;
use youtube_proxy::timer::{calc_wait_time, RESET_HOUR, RESET_MINUTE};

fn instant(time: DateTime<Utc>) -> UtcInstant {
    UtcInstant::from_timestamp(time.timestamp(), time.timestamp_subsec_nanos()).unwrap()
}

#[test]
fn check_wait_time_before_9() {
    let now = Utc::now().with_hour(8).unwrap()
        .with_minute(0).unwrap()
        .with_second(0).unwrap();

    let ms = calc_wait_time(instant(now));

    assert_eq!(ms, 3660000)
}

#[test]
fn check_wait_time_after_9() {
    let now = Utc::now().with_hour(10).unwrap()
        .with_minute(0).unwrap()
        .with_second(0).unwrap();

    let ms = calc_wait_time(instant(now));

    assert_eq!(ms, 82860000)
}

#[test]
fn the_reset_falls_on_one_minute_past_nine() {
    assert_eq!(RESET_HOUR, 9);
    assert_eq!(RESET_MINUTE, 1);
}

#[test]
fn wait_from_midnight_is_nine_hours_and_a_minute() {
    let now = Utc.with_ymd_and_hms(2024, 2, 29, 0, 0, 0).unwrap();
    assert_eq!(calc_wait_time(instant(now)), 32_460_000);
}

#[test]
fn wait_just_before_nine_is_just_over_a_minute() {
    let now = Utc.with_ymd_and_hms(2021, 7, 4, 8, 59, 59).unwrap();
    assert_eq!(calc_wait_time(instant(now)), 61_000);
}

#[test]
fn wait_counts_from_the_last_full_second() {
    let now = Utc.with_ymd_and_hms(2021, 7, 4, 8, 59, 59).unwrap().with_nanosecond(999_000_000).unwrap();
    assert_eq!(calc_wait_time(instant(now)), 61_000);
    let now = Utc.with_ymd_and_hms(2021, 7, 4, 8, 0, 0).unwrap().with_nanosecond(123_456_789).unwrap();
    assert_eq!(calc_wait_time(instant(now)), 3_660_000);
}

#[test]
fn wait_within_the_reset_hour_goes_to_the_next_day() {
    let now = Utc.with_ymd_and_hms(2023, 12, 31, 9, 0, 30).unwrap();
    assert_eq!(calc_wait_time(instant(now)), 86_430_000);
    let now = Utc.with_ymd_and_hms(2023, 12, 31, 9, 1, 0).unwrap();
    assert_eq!(calc_wait_time(instant(now)), 86_400_000);
}

#[test]
fn wait_from_the_last_second_of_the_day() {
    let now = Utc.with_ymd_and_hms(1999, 12, 31, 23, 59, 59).unwrap();
    assert_eq!(calc_wait_time(instant(now)), 32_461_000);
}

#[test]
fn wait_before_the_epoch() {
    let now = Utc.with_ymd_and_hms(1969, 7, 20, 20, 17, 40).unwrap();
    // 03:42:20 to midnight, then 09:01:00
    assert_eq!(calc_wait_time(instant(now)), (3 * 3600 + 42 * 60 + 20 + 9 * 3600 + 60) * 1000);
}

#[test]
fn now_plus_wait_is_the_next_reset_on_the_clock() {
    let starts = [
        Utc.with_ymd_and_hms(2020, 2, 28, 23, 30, 0).unwrap(),
        Utc.with_ymd_and_hms(2020, 2, 29, 3, 15, 7).unwrap(),
        Utc.with_ymd_and_hms(2020, 3, 1, 9, 0, 0).unwrap(),
        Utc.with_ymd_and_hms(2020, 3, 1, 17, 45, 59).unwrap(),
    ];
    for now in starts {
        let wait = calc_wait_time(instant(now));
        assert!(wait > 60_000 && wait <= 86_460_000);
        let reset = now + chrono::TimeDelta::milliseconds(wait as i64);
        assert_eq!((reset.hour(), reset.minute(), reset.second()), (9, 1, 0));
        assert!(reset > now);
    }
}

#[test]
fn trigger_resets_the_pool() {
    let mut pool = KeyManager::new(vec!["k1".to_string(), "k2".to_string()]);
    assert_eq!(pool.get_key(600), Some("k1".to_string()));
    pool.set_key_as_expired("k2".to_string());
    youtube_proxy::timer::trigger(&mut pool);
    let status = pool.get_status();
    assert_eq!(status[&0], 10000);
    assert_eq!(status[&1], 10000);
    assert_eq!(pool.get_key(1), Some("k2".to_string()));
}

#[test]
fn wait_at_the_ends_of_the_range() {
    for secs in [4_000_000_000_000i64, -4_000_000_000_000, 3_999_999_999_999, -3_999_999_999_999] {
        let now = DateTime::from_timestamp(secs, 500_000_000).unwrap();
        let wait = calc_wait_time(instant(now));
        let reset = now + chrono::TimeDelta::milliseconds(wait as i64);
        assert_eq!((reset.hour(), reset.minute(), reset.second()), (9, 1, 0));
        assert!(wait > 60_000 && wait <= 86_460_000);
    }
}

#[test]
fn the_wait_follows_the_clock() {
    let mut next: i64 = 99;
    for _ in 0..2_000 {
        next = (next.wrapping_mul(6_364_136_223_846_793_005).wrapping_add(1_442_695_040_888_963_407))
            .rem_euclid(8_000_000_000_000);
        let secs = next - 4_000_000_000_000;
        let now = UtcInstant::from_timestamp(secs, 123_456_789).unwrap();
        let time_of_day = secs.rem_euclid(86_400);
        let until = if time_of_day / 3_600 < 9 { 32_460 } else { 118_860 };
        assert_eq!(calc_wait_time(now), ((until - time_of_day) * 1_000) as u64);
    }
}
