//! When a reminder is due: the next local date and time of a weekday and time in an
//! ISO week, and how long until then. Instants are Unix timestamps in seconds.

use vstd::prelude::*;

use crate::config::{days_from_monday, Weekday};

verus! {

/// chrono's number for a weekday, the one `chrono::Weekday` converts from: Monday is 0, Sunday is 6.
pub fn weekday_to_chrono(weekday: &Weekday) -> (day: u8)
    ensures
        day == days_from_monday(*weekday),
        day < 7,
{
    match weekday {
        Weekday::Monday => 0,
        Weekday::Tuesday => 1,
        Weekday::Wednesday => 2,
        Weekday::Thursday => 3,
        Weekday::Friday => 4,
        Weekday::Saturday => 5,
        Weekday::Sunday => 6,
    }
}

/// Different weekdays get different chrono numbers.
pub proof fn law_weekday_numbers_distinct(a: Weekday, b: Weekday)
    ensures
        days_from_monday(a) == days_from_monday(b) <==> a == b,
{
}

/// The day number (1 January of year 1 is day 1, a Monday) of 1 January of `year`, in the
/// proleptic Gregorian calendar that chrono counts in (`Datelike::num_days_from_ce`).
pub open spec fn new_year_day(year: int) -> int {
    let y = year - 1;
    365 * y + y / 4 - y / 100 + y / 400 + 1
}

/// The weekday of day number `day`, counted from Monday as 0.
pub open spec fn weekday_of_day(day: int) -> int {
    (day - 1) % 7
}

/// The day number of the Monday that starts ISO week 1 of `year`: the week that holds
/// 4 January.
pub open spec fn iso_year_start(year: int) -> int {
    let january_4 = new_year_day(year) + 3;
    january_4 - weekday_of_day(january_4)
}

/// How many ISO weeks `year` has (52 or 53).
pub open spec fn iso_weeks_in_year(year: int) -> int {
    (iso_year_start(year + 1) - iso_year_start(year)) / 7
}

/// The day number of the ISO week date `year`, `week`, `weekday` (counted from Monday as
/// 0), or `None` where there is no such week date.
pub open spec fn iso_week_date_days(year: int, week: int, weekday: int) -> Option<int> {
    if 1 <= week <= iso_weeks_in_year(year) && 0 <= weekday < 7 {
        Some(iso_year_start(year) + 7 * (week - 1) + weekday)
    } else {
        None
    }
}

/// A year has at least 365 days.
proof fn lemma_year_length(year: int)
    ensures
        new_year_day(year + 1) - new_year_day(year) >= 365,
{
    let y = year;
    assert(y / 4 - (y - 1) / 4 == (if y % 4 == 0 { 1int } else { 0int })) by (nonlinear_arith);
    assert(y / 100 - (y - 1) / 100 == (if y % 100 == 0 { 1int } else { 0int })) by (nonlinear_arith);
    assert(y / 400 - (y - 1) / 400 == (if y % 400 == 0 { 1int } else { 0int })) by (nonlinear_arith);
    assert(y % 100 == 0 ==> y % 4 == 0) by (nonlinear_arith);
}

/// ISO week 1 starts within three days of 1 January.
proof fn lemma_iso_year_start_near_new_year(year: int)
    ensures
        new_year_day(year) - 3 <= iso_year_start(year) <= new_year_day(year) + 3,
{
}

/// `chrono::NaiveDate::from_isoywd_opt`, its date given by `Datelike::num_days_from_ce`.
/// chrono rejects week 0 and every week above the year's last, which is at most 53, and
/// else gives the ISO week date's day; it also rejects dates outside years -262143..=262142,
/// which only the first and last of its years reach.
#[verifier::external_body]
fn iso_week_date(year: i32, week: u32, weekday: u8) -> (days: Option<i32>)
    requires
        i32::MIN < year < i32::MAX,
        weekday < 7,
    ensures
        days matches Some(d) ==> iso_week_date_days(year as int, week as int, weekday as int) == Some(d as int),
        -262142 <= year <= 262141 ==> (days is Some <==> iso_week_date_days(year as int, week as int, weekday as int) is Some),
        week == 0 || week > 53 ==> days is None,
{
    let day = chrono::Weekday::try_from(weekday).unwrap();
    match chrono::NaiveDate::from_isoywd_opt(year, week, day) {
        Some(date) => Some(chrono::Datelike::num_days_from_ce(&date)),
        None => None,
    }
}

/// `chrono::NaiveTime::from_hms_opt(hour, min, 0)`, the time given as seconds past midnight:
/// `None` unless the hour is below 24 and the minute below 60.
#[verifier::external_body]
fn time_of_day(hour: u32, min: u32) -> (seconds: Option<u32>)
    ensures
        seconds == (if hour < 24 && min < 60 {
            Some((hour * 3600 + min * 60) as u32)
        } else {
            None
        }),
{
    match chrono::NaiveTime::from_hms_opt(hour, min, 0) {
        Some(time) => Some(chrono::Timelike::num_seconds_from_midnight(&time)),
        None => None,
    }
}

/// The Unix timestamp that a wall-clock date and time would have in UTC (chrono's
/// `timestamp` of the naive date and time; day 719163 is 1 January 1970).
pub open spec fn wall_clock_timestamp(days_from_ce: int, seconds_of_day: int) -> int {
    (days_from_ce - 719_163) * 86_400 + seconds_of_day
}

/// An instant less than a day away from `wall`: a time zone's offset from UTC is below a
/// day either way.
pub open spec fn within_a_day(instant: int, wall: int) -> bool {
    wall - 86_400 < instant < wall + 86_400
}

/// `instant` is, in some time zone, the local `hour`:`min` on the ISO week date `year`,
/// `week`, `weekday`, which chrono accepts.
pub open spec fn local_instant_of(instant: int, year: int, week: int, weekday: Weekday, hour: int, min: int) -> bool {
    &&& hour < 24
    &&& min < 60
    &&& iso_week_date_days(year, week, days_from_monday(weekday) as int) matches Some(days)
        && within_a_day(instant, wall_clock_timestamp(days, hour * 3600 + min * 60))
}

/// The Unix timestamp of a local date and time in the machine's time zone, by
/// `chrono::Local.from_local_datetime(..).single()`: `None` where the local time is skipped
/// or repeated. Which offset applies depends on the time zone and is not stated; chrono's
/// offsets (`FixedOffset`) lie strictly within a day of UTC, so the instant lies within a
/// day of the wall-clock time.
#[verifier::external_body]
fn local_timestamp(days_from_ce: i32, seconds_of_day: u32) -> (instant: Option<i64>)
    ensures
        instant matches Some(t) ==> within_a_day(
            t as int,
            wall_clock_timestamp(days_from_ce as int, seconds_of_day as int),
        ),
{
    let date = chrono::NaiveDate::from_num_days_from_ce_opt(days_from_ce)?;
    let time = chrono::NaiveTime::from_num_seconds_from_midnight_opt(seconds_of_day, 0)?;
    let local = chrono::TimeZone::from_local_datetime(&chrono::Local, &date.and_time(time));
    match local.single() {
        Some(instant) => Some(instant.timestamp()),
        None => None,
    }
}

/// The present moment as the local clock shows it.
#[derive(Clone, Copy, Debug)]
pub struct LocalNow {
    /// Unix timestamp in whole seconds.
    pub timestamp: i64,
    /// Nanoseconds past `timestamp`.
    pub subsec_nanos: u32,
    /// The day number of the local date (1 January of year 1 is day 1).
    pub local_day: i32,
    /// The local time of day, in seconds past midnight.
    pub local_seconds: u32,
    /// The calendar year of the local date.
    pub year: i32,
    /// The ISO year of the local date (the year its ISO week belongs to).
    pub iso_year: i32,
    /// The ISO week number of the local date.
    pub iso_week: u32,
}

/// A reading of the clock that hangs together: its year and ISO week are those of its local
/// date, its local date and time lie within a day of its timestamp, and its parts lie in
/// the ranges chrono keeps them in.
pub open spec fn clock_reading(now: LocalNow) -> bool {
    &&& -262144 <= now.year <= 262143
    &&& now.subsec_nanos < 1_000_000_000
    &&& now.local_seconds < 86_400
    &&& new_year_day(now.year as int) <= now.local_day < new_year_day(now.year + 1)
    &&& now.year - 1 <= now.iso_year <= now.year + 1
    &&& iso_year_start(now.iso_year as int) <= now.local_day < iso_year_start(now.iso_year + 1)
    &&& now.iso_week == (now.local_day - iso_year_start(now.iso_year as int)) / 7 + 1
    &&& 1 <= now.iso_week <= 53
    &&& within_a_day(now.timestamp as int, wall_clock_timestamp(now.local_day as int, now.local_seconds as int))
}

/// `std::time::SystemTime::now()`, as whole seconds and nanoseconds since the Unix epoch
/// (`duration_since(UNIX_EPOCH)`); `None` where the clock reads before the epoch. The
/// moment depends on the clock; a `Duration`'s sub-second part is below a second.
#[verifier::external_body]
fn system_time_since_epoch() -> (since: Option<(u64, u32)>)
    ensures
        since matches Some(parts) ==> parts.1 < 1_000_000_000,
{
    match std::time::SystemTime::now().duration_since(std::time::UNIX_EPOCH) {
        Ok(duration) => Some((duration.as_secs(), duration.subsec_nanos())),
        Err(_) => None,
    }
}

/// The Unix time `seconds` + `nanos` ns as chrono shows it in the machine's time zone:
/// `DateTime::from_timestamp`, then `with_timezone(&chrono::Local)`, read out as the local
/// date's day number, time of day, year, ISO year and ISO week. `None` where chrono cannot
/// hold the instant, which it can within ±8.2e12 seconds. The offset depends on the time
/// zone and is not stated; chrono's offsets lie strictly within a day of UTC, its years
/// within 19 bits, and its ISO weeks within 1..=53.
#[verifier::external_body]
fn local_clock(seconds: i64, nanos: u32) -> (now: Option<LocalNow>)
    requires
        nanos < 1_000_000_000,
    ensures
        now matches Some(n) ==> n.timestamp == seconds && n.subsec_nanos == nanos && clock_reading(n),
        chrono_timestamp(seconds as int) ==> now is Some,
{
    let utc = chrono::DateTime::from_timestamp(seconds, nanos)?;
    let local = utc.with_timezone(&chrono::Local);
    Some(LocalNow {
        timestamp: seconds,
        subsec_nanos: nanos,
        local_day: chrono::Datelike::num_days_from_ce(&local),
        local_seconds: chrono::Timelike::num_seconds_from_midnight(&local),
        year: chrono::Datelike::year(&local),
        iso_year: chrono::Datelike::iso_week(&local).year(),
        iso_week: chrono::Datelike::iso_week(&local).week(),
    })
}

/// The present moment, as `chrono::Local::now()` gives it but without its panic on a clock
/// before 1970: `None` where the clock reads before 1970 or beyond what chrono can hold.
fn local_now() -> (now: Option<LocalNow>)
    ensures
        now matches Some(n) ==> clock_reading(n),
{
    let (seconds, nanos) = system_time_since_epoch()?;
    if seconds > 9_223_372_036_854_775_807u64 {
        return None;
    }
    local_clock(seconds as i64, nanos)
}

/// A week that lies before the present ISO week, taken in the year after the present
/// calendar year, lies after the present moment on the local wall clock: whatever weekday
/// and time of day, its date comes after today.
pub proof fn law_passed_week_next_year_is_later(now: LocalNow, week: int, weekday: int, seconds_of_day: int)
    requires
        clock_reading(now),
        week < now.iso_week,
        iso_week_date_days(now.year + 1, week, weekday) is Some,
        0 <= seconds_of_day,
    ensures
        wall_clock_timestamp(iso_week_date_days(now.year + 1, week, weekday).unwrap(), seconds_of_day)
            > wall_clock_timestamp(now.local_day as int, now.local_seconds as int),
{
    let next = now.year + 1;
    lemma_iso_year_start_near_new_year(next);
    lemma_iso_year_start_near_new_year(now.year as int);
    lemma_year_length(now.year as int);
    if now.iso_year == next {
        assert(0 <= now.local_day - iso_year_start(next) < 7);
        assert((now.local_day - iso_year_start(next)) / 7 == 0);
        assert(now.iso_week == 1);
        assert(false);
    }
    assert(now.local_day < iso_year_start(next));
}

/// The whole seconds from the moment `now_secs` + `now_nanos` ns until `target`, truncated
/// toward zero: what chrono's `num_seconds` gives of the span between the two instants.
pub open spec fn whole_seconds_until(target: int, now_secs: int, now_nanos: int) -> int {
    if now_nanos == 0 || target <= now_secs {
        target - now_secs
    } else {
        target - now_secs - 1
    }
}

/// Timestamps that chrono can hold as instants (well inside years -262143..=262142).
pub open spec fn chrono_timestamp(t: int) -> bool {
    -8_200_000_000_000 <= t <= 8_200_000_000_000
}

/// `chrono::DateTime::from_timestamp` of both instants, then
/// `target.signed_duration_since(now).num_seconds()`: the span truncated toward zero
/// (chrono subtracts the dates, then the times, normalises the nanoseconds to 0..1e9 and
/// adds one to a negative whole part that has nanoseconds). `None` where chrono cannot hold
/// an instant, which it can for every timestamp within ±8.2e12 seconds.
#[verifier::external_body]
fn seconds_between(target: i64, now_secs: i64, now_nanos: u32) -> (seconds: Option<i64>)
    requires
        now_nanos < 1_000_000_000,
    ensures
        seconds matches Some(s) ==> s == whole_seconds_until(target as int, now_secs as int, now_nanos as int),
        chrono_timestamp(target as int) && chrono_timestamp(now_secs as int) ==> seconds is Some,
{
    let target = chrono::DateTime::from_timestamp(target, 0)?;
    let now = chrono::DateTime::from_timestamp(now_secs, now_nanos)?;
    Some(target.signed_duration_since(now).num_seconds())
}

/// The local instant of the given weekday and time in ISO week `week` of `year`.
fn from_local_isoywdhm_opt(year: i32, week: u32, weekday: &Weekday, hour: u32, min: u32) -> (instant: Option<i64>)
    requires
        i32::MIN < year < i32::MAX,
    ensures
        iso_week_date_days(year as int, week as int, days_from_monday(*weekday) as int) is None ==> instant is None,
        week == 0 || week > 53 ==> instant is None,
        !(hour < 24 && min < 60) ==> instant is None,
        instant matches Some(t) ==> local_instant_of(t as int, year as int, week as int, *weekday, hour as int, min as int),
{
    let date = iso_week_date(year, week, weekday_to_chrono(weekday))?;
    let seconds = time_of_day(hour, min)?;
    local_timestamp(date, seconds)
}

/// Whether a reminder's instant in this year is already gone, so that next year's is meant:
/// its week lies before the present ISO week and the instant is not after now.
pub fn next_year_needed(week: u32, now: &LocalNow, this_year: i64) -> (needed: bool)
    ensures
        needed == (week < now.iso_week && this_year <= now.timestamp),
{
    week < now.iso_week && this_year <= now.timestamp
}

/// The next instant of the weekday and time in ISO week `week`, seen from `now`: none where
/// `now`'s year has no such week date or the time is invalid; otherwise the instant in
/// `now`'s year, unless the week lies before `now`'s ISO week and that instant is not after
/// now, in which case the instant in the following year.
pub open spec fn next_local_instant_result(
    now: LocalNow,
    week: u32,
    weekday: Weekday,
    hour: u32,
    min: u32,
    instant: Option<i64>,
) -> bool {
    &&& iso_week_date_days(now.year as int, week as int, days_from_monday(weekday) as int) is None ==> instant is None
    &&& week == 0 || week > 53 ==> instant is None
    &&& !(hour < 24 && min < 60) ==> instant is None
    &&& instant matches Some(t) ==> {
        ||| local_instant_of(t as int, now.year as int, week as int, weekday, hour as int, min as int)
            && !(week < now.iso_week && t <= now.timestamp)
        ||| week < now.iso_week
            && local_instant_of(t as int, now.year + 1, week as int, weekday, hour as int, min as int)
            && (exists|gone: int| gone <= now.timestamp
                && #[trigger] local_instant_of(gone, now.year as int, week as int, weekday, hour as int, min as int))
            && (clock_reading(now) ==> wall_clock_timestamp(
                iso_week_date_days(now.year + 1, week as int, days_from_monday(weekday) as int).unwrap(),
                hour * 3600 + min * 60,
            ) > wall_clock_timestamp(now.local_day as int, now.local_seconds as int))
    }
}

/// The next local instant, seen from `now`, of the weekday and time in ISO week `week`:
/// the one in `now`'s year, or, where that week lies before `now`'s ISO week and that
/// instant is not after now, the one in the following year. No instant in `now`'s year
/// means none at all; the following year is then not tried.
pub fn next_local_instant_at(now: &LocalNow, week: u32, weekday: &Weekday, hour: u32, min: u32) -> (instant: Option<i64>)
    requires
        -262144 <= now.year <= 262143,
    ensures
        next_local_instant_result(*now, week, *weekday, hour, min, instant),
{
    let this_year = from_local_isoywdhm_opt(now.year, week, weekday, hour, min)?;
    if next_year_needed(week, now, this_year) {
        let next_year = from_local_isoywdhm_opt(now.year + 1, week, weekday, hour, min);
        proof {
            assert(local_instant_of(this_year as int, now.year as int, week as int, *weekday, hour as int, min as int));
            if next_year is Some && clock_reading(*now) {
                law_passed_week_next_year_is_later(
                    *now,
                    week as int,
                    days_from_monday(*weekday) as int,
                    hour * 3600 + min * 60,
                );
            }
        }
        next_year
    } else {
        Some(this_year)
    }
}

/// A week that is not before the present ISO week keeps this year's instant, even where
/// that instant has already passed: the result is the weekday and time in that week of the
/// present year, and never the one a year later.
pub proof fn law_week_not_passed_keeps_this_year(
    now: LocalNow,
    week: u32,
    weekday: Weekday,
    hour: u32,
    min: u32,
    instant: i64,
)
    requires
        week >= now.iso_week,
        next_local_instant_result(now, week, weekday, hour, min, Some(instant)),
    ensures
        local_instant_of(instant as int, now.year as int, week as int, weekday, hour as int, min as int),
        !local_instant_of(instant as int, now.year + 1, week as int, weekday, hour as int, min as int),
{
    lemma_iso_year_start_near_new_year(now.year as int);
    lemma_iso_year_start_near_new_year(now.year + 1);
    lemma_year_length(now.year as int);
}

/// The next local instant of the weekday and time in ISO week `week`: this year's, or
/// next year's where this year's is past (see `next_local_instant_at`), seen from the
/// present moment. `None` also where the clock cannot be read.
pub fn from_next_local_isowdhm_opt(week: u32, weekday: &Weekday, hour: u32, min: u32) -> (instant: Option<i64>)
    ensures
        week == 0 || week > 53 ==> instant is None,
        !(hour < 24 && min < 60) ==> instant is None,
        instant matches Some(t) ==> exists|now: LocalNow|
            clock_reading(now) && #[trigger] next_local_instant_result(now, week, *weekday, hour, min, Some(t)),
{
    let now = local_now()?;
    let instant = next_local_instant_at(&now, week, weekday, hour, min);
    proof {
        if let Some(t) = instant {
            assert(next_local_instant_result(now, week, *weekday, hour, min, Some(t)));
        }
    }
    instant
}

/// The wait, in seconds, for a span of `seconds_until` seconds: none unless it is positive.
pub fn duration_from_seconds(seconds_until: i64) -> (wait: Option<u64>)
    ensures
        wait == (if seconds_until <= 0 { None } else { Some(seconds_until as u64) }),
{
    if seconds_until <= 0 {
        None
    } else {
        Some(seconds_until as u64)
    }
}

/// The wait, in whole seconds, from `now` until the instant `timestamp`: none unless it is
/// positive. For every instant chrono can hold it is exactly that.
pub fn duration_until_at(timestamp: i64, now: &LocalNow) -> (wait: Option<u64>)
    requires
        now.subsec_nanos < 1_000_000_000,
    ensures
        wait matches Some(s) ==> s > 0
            && s == whole_seconds_until(timestamp as int, now.timestamp as int, now.subsec_nanos as int),
        chrono_timestamp(timestamp as int) && chrono_timestamp(now.timestamp as int) ==> (wait is Some
            <==> whole_seconds_until(timestamp as int, now.timestamp as int, now.subsec_nanos as int) > 0),
{
    let seconds = seconds_between(timestamp, now.timestamp, now.subsec_nanos)?;
    duration_from_seconds(seconds)
}

/// The wait runs from the reading to the target: the target lies the wait after the
/// reading's whole second, or one second later where the reading has a fraction of a
/// second; so the wait is the exact span from the reading, rounded down to whole seconds.
pub proof fn law_wait_runs_from_reading_to_target(target: int, now_secs: int, now_nanos: int)
    requires
        0 <= now_nanos < 1_000_000_000,
        whole_seconds_until(target, now_secs, now_nanos) > 0,
    ensures
        target - whole_seconds_until(target, now_secs, now_nanos)
            == now_secs + (if now_nanos == 0 { 0int } else { 1int }),
        whole_seconds_until(target, now_secs, now_nanos) * 1_000_000_000
            <= (target - now_secs) * 1_000_000_000 - now_nanos,
        (target - now_secs) * 1_000_000_000 - now_nanos
            < (whole_seconds_until(target, now_secs, now_nanos) + 1) * 1_000_000_000,
{
}

/// How many seconds remain from the present moment until the instant `timestamp`: the wait
/// that `duration_until_at` gives from a reading of the clock; `None` when it is not in the
/// future or the clock cannot be read.
pub fn duration_until_datetime(timestamp: i64) -> (wait: Option<u64>)
    ensures
        wait matches Some(s) ==> s > 0 && exists|now: LocalNow|
            #[trigger] clock_reading(now)
            && s == whole_seconds_until(timestamp as int, now.timestamp as int, now.subsec_nanos as int),
{
    let now = local_now()?;
    let wait = duration_until_at(timestamp, &now);
    proof {
        if let Some(s) = wait {
            assert(clock_reading(now));
        }
    }
    wait
}

} // verus!
