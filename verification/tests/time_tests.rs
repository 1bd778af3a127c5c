use chrono::{Datelike, Local, TimeZone, Timelike};
use vasko::config::Weekday;
use vasko::time::{
    duration_from_seconds, duration_until_at, duration_until_datetime, from_next_local_isowdhm_opt,
    next_local_instant_at, next_year_needed, weekday_to_chrono, LocalNow,
};

#[test]
fn weekday_numbers_follow_chrono() {
    let days = [
        Weekday::Monday,
        Weekday::Tuesday,
        Weekday::Wednesday,
        Weekday::Thursday,
        Weekday::Friday,
        Weekday::Saturday,
        Weekday::Sunday,
    ];
    for (i, day) in days.iter().enumerate() {
        assert_eq!(weekday_to_chrono(day) as usize, i);
    }
}

#[test]
fn duration_only_for_future() {
    assert_eq!(duration_from_seconds(-5), None);
    assert_eq!(duration_from_seconds(0), None);
    assert_eq!(duration_from_seconds(90), Some(90));
}

#[test]
fn next_year_needed_only_for_past_weeks() {
    let now = LocalNow { timestamp: 1_000, subsec_nanos: 0, local_day: 738_951, local_seconds: 1_000, year: 2024, iso_year: 2024, iso_week: 10 };
    assert!(next_year_needed(9, &now, 500));
    assert!(next_year_needed(9, &now, 1_000));
    assert!(!next_year_needed(9, &now, 1_001));
    assert!(!next_year_needed(10, &now, 500));
    assert!(!next_year_needed(11, &now, 500));
}

#[test]
fn invalid_week_or_time_gives_no_instant() {
    assert_eq!(from_next_local_isowdhm_opt(0, &Weekday::Monday, 10, 0), None);
    assert_eq!(from_next_local_isowdhm_opt(54, &Weekday::Monday, 10, 0), None);
    assert_eq!(from_next_local_isowdhm_opt(10, &Weekday::Monday, 24, 0), None);
    assert_eq!(from_next_local_isowdhm_opt(10, &Weekday::Monday, 10, 60), None);
}

#[test]
fn instants_are_in_the_future_or_dropped() {
    assert_eq!(duration_until_datetime(0), None);
    let far = 4_102_444_800; // 2100-01-01
    let wait = duration_until_datetime(far).unwrap();
    assert!(wait > 0);
}

#[test]
fn next_instant_is_a_whole_minute() {
    if let Some(t) = from_next_local_isowdhm_opt(20, &Weekday::Wednesday, 7, 30) {
        assert_eq!(t % 60, 0);
    }
}

#[test]
fn next_instant_has_the_asked_weekday_week_and_time() {
    let t = from_next_local_isowdhm_opt(20, &Weekday::Wednesday, 7, 30)
        .expect("an ordinary morning exists in every time zone");
    let local = Local.timestamp_opt(t, 0).single().unwrap();
    assert_eq!(local.hour(), 7);
    assert_eq!(local.minute(), 30);
    assert_eq!(local.weekday(), chrono::Weekday::Wed);
    assert_eq!(local.iso_week().week(), 20);
    let now = Local::now();
    assert!(local.year() == now.year() || local.year() == now.year() + 1);
}

fn local(y: i32, mo: u32, d: u32, h: u32, mi: u32) -> i64 {
    Local.with_ymd_and_hms(y, mo, d, h, mi, 0).single().unwrap().timestamp()
}

fn now_at(y: i32, mo: u32, d: u32, h: u32, mi: u32) -> LocalNow {
    let t = Local.with_ymd_and_hms(y, mo, d, h, mi, 0).single().unwrap();
    LocalNow {
        timestamp: t.timestamp(),
        subsec_nanos: 0,
        local_day: t.num_days_from_ce(),
        local_seconds: t.num_seconds_from_midnight(),
        year: t.year(),
        iso_year: t.iso_week().year(),
        iso_week: t.iso_week().week(),
    }
}

#[test]
fn passed_time_in_current_week_stays_this_year() {
    let now = now_at(2024, 3, 13, 12, 0);
    assert_eq!(now.iso_week, 11);
    assert_eq!(next_local_instant_at(&now, 11, &Weekday::Monday, 9, 0), Some(local(2024, 3, 11, 9, 0)));
}

#[test]
fn passed_week_moves_to_next_year() {
    let now = now_at(2024, 3, 13, 12, 0);
    assert_eq!(next_local_instant_at(&now, 10, &Weekday::Monday, 9, 0), Some(local(2025, 3, 3, 9, 0)));
    assert_eq!(next_local_instant_at(&now, 12, &Weekday::Monday, 9, 0), Some(local(2024, 3, 18, 9, 0)));
}

#[test]
fn missing_week_53_gives_none_without_trying_next_year() {
    let now = now_at(2025, 6, 1, 12, 0);
    assert_eq!(next_local_instant_at(&now, 53, &Weekday::Thursday, 9, 0), None);
    let now = now_at(2026, 6, 1, 12, 0);
    assert_eq!(next_local_instant_at(&now, 53, &Weekday::Thursday, 9, 0), Some(local(2026, 12, 31, 9, 0)));
}

#[test]
fn wait_from_a_given_moment() {
    let now = LocalNow { timestamp: 1_000, subsec_nanos: 0, local_day: 719_163, local_seconds: 1_000, year: 1970, iso_year: 1970, iso_week: 1 };
    assert_eq!(duration_until_at(1_060, &now), Some(60));
    assert_eq!(duration_until_at(1_000, &now), None);
    assert_eq!(duration_until_at(900, &now), None);
    let now = LocalNow { timestamp: 1_000, subsec_nanos: 500_000_000, local_day: 719_163, local_seconds: 1_000, year: 1970, iso_year: 1970, iso_week: 1 };
    assert_eq!(duration_until_at(1_060, &now), Some(59));
    assert_eq!(duration_until_at(1_001, &now), None);
}
