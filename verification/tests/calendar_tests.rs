//! The ISO week-date arithmetic that the library's contracts state, checked against chrono.

use chrono::{Datelike, NaiveDate, Weekday};

fn new_year_day(year: i64) -> i64 {
    let y = year - 1;
    365 * y + y.div_euclid(4) - y.div_euclid(100) + y.div_euclid(400) + 1
}

fn iso_year_start(year: i64) -> i64 {
    let january_4 = new_year_day(year) + 3;
    january_4 - (january_4 - 1).rem_euclid(7)
}

fn iso_week_date_days(year: i64, week: i64, weekday: i64) -> Option<i64> {
    let weeks = (iso_year_start(year + 1) - iso_year_start(year)) / 7;
    if 1 <= week && week <= weeks && (0..7).contains(&weekday) {
        Some(iso_year_start(year) + 7 * (week - 1) + weekday)
    } else {
        None
    }
}

#[test]
fn iso_week_dates_match_chrono() {
    for year in -1200..=3200 {
        for week in 0..=54u32 {
            for weekday in 0..7u8 {
                let day = Weekday::try_from(weekday).unwrap();
                let chrono_days = NaiveDate::from_isoywd_opt(year, week, day).map(|d| d.num_days_from_ce() as i64);
                assert_eq!(chrono_days, iso_week_date_days(year as i64, week as i64, weekday as i64));
            }
        }
    }
}

#[test]
fn new_year_days_match_chrono() {
    for year in -1200..=3200 {
        let jan1 = NaiveDate::from_ymd_opt(year, 1, 1).unwrap();
        assert_eq!(jan1.num_days_from_ce() as i64, new_year_day(year as i64));
        assert_eq!(jan1.weekday().num_days_from_monday() as i64, (new_year_day(year as i64) - 1).rem_euclid(7));
    }
}

#[test]
fn iso_weeks_of_dates_match_chrono() {
    let mut date = NaiveDate::from_ymd_opt(1890, 1, 1).unwrap();
    while date.year() < 2110 {
        let day = date.num_days_from_ce() as i64;
        let iso = date.iso_week();
        let start = iso_year_start(iso.year() as i64);
        assert!(start <= day && day < iso_year_start(iso.year() as i64 + 1));
        assert_eq!(iso.week() as i64, (day - start) / 7 + 1);
        assert!((date.year() - 1..=date.year() + 1).contains(&iso.year()));
        date = date.succ_opt().unwrap();
    }
}
