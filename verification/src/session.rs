//! The regular US equity session in UTC, with daylight saving time as
//! the US Eastern zone observes it: from the second Sunday of March to
//! the first Sunday of November.
//!
//! Instants are seconds since the Unix epoch (UTC); times of day are
//! seconds since UTC midnight.

use vstd::prelude::*;
use chrono::Datelike;
use crate::policy::SessionPolicyState;
use crate::text::owned;
use crate::market_readiness::{time_of_day, seconds_of_day};

verus! {

/// First instant that the calendar can represent (1 January of year -262143).
pub const MIN_INSTANT: i64 = -8_334_601_228_800;

/// Last whole second that the calendar can represent (31 December of year 262142).
pub const MAX_INSTANT: i64 = 8_210_266_876_799;

/// First and last day number (days since 1970-01-01) that the calendar can represent.
pub const MIN_DAY: i64 = -96_465_292;

pub const MAX_DAY: i64 = 95_026_236;

pub const MIN_YEAR: i32 = -262_143;

pub const MAX_YEAR: i32 = 262_142;

/// Days from 1970-01-01 to a date of the proleptic Gregorian calendar.
pub open spec fn days_from_civil(year: int, month: int, day: int) -> int {
    let y = if month <= 2 { year - 1 } else { year };
    let era = y / 400;
    let yoe = y - era * 400;
    let mp = if month > 2 { month - 3 } else { month + 9 };
    let doy = (153 * mp + 2) / 5 + day - 1;
    let doe = yoe * 365 + yoe / 4 - yoe / 100 + doy;
    era * 146_097 + doe - 719_468
}

/// The date (year, month, day) of the proleptic Gregorian calendar that
/// lies `days` days after 1970-01-01.
pub open spec fn civil_from_days(days: int) -> (int, int, int) {
    let z = days + 719_468;
    let era = z / 146_097;
    let doe = z - era * 146_097;
    let yoe = (doe - doe / 1_460 + doe / 36_524 - doe / 146_096) / 365;
    let doy = doe - (365 * yoe + yoe / 4 - yoe / 100);
    let mp = (5 * doy + 2) / 153;
    let day = doy - (153 * mp + 2) / 5 + 1;
    let month = if mp < 10 { mp + 3 } else { mp - 9 };
    let year = yoe + era * 400;
    (if month <= 2 { year + 1 } else { year }, month, day)
}

/// Day of the week of a calendar date, Monday being 0 (1970-01-01 was a
/// Thursday).
#[verifier::opaque]
pub open spec fn weekday_from_monday(year: int, month: int, day: int) -> int {
    (days_from_civil(year, month, day) + 3) % 7
}

/// The UTC calendar date (year, month, day) of an instant.
#[verifier::opaque]
pub open spec fn utc_date_of(instant: int) -> (int, int, int) {
    civil_from_days(instant / 86_400)
}

/// Day of the week of the given date (Monday = 0), computed by chrono's
/// `NaiveDate::from_ymd_opt` and `Datelike::weekday`. Claimed: the result
/// is the weekday of that date of the proleptic Gregorian calendar, which
/// chrono implements, and lies below 7; the date exists for every day 1 of
/// a month in chrono's year range.
#[verifier::external_body]
fn weekday_of_first(year: i32, month: u32) -> (r: u32)
    requires
        MIN_YEAR <= year <= MAX_YEAR,
        1 <= month <= 12,
    ensures
        r as int == weekday_from_monday(year as int, month as int, 1),
        r < 7,
{
    chrono::NaiveDate::from_ymd_opt(year, month, 1).expect("the first of a month exists").weekday().num_days_from_monday()
}

/// The UTC calendar date of an instant, computed by chrono's
/// `DateTime::from_timestamp` and `date_naive`. Claimed: the result is the
/// proleptic Gregorian date of the instant's day, with a month in 1..=12, a
/// day in 1..=31 and a year in chrono's range; every instant in the range
/// has a date.
#[verifier::external_body]
fn utc_date(instant: i64) -> (r: (i32, u32, u32))
    requires
        MIN_INSTANT <= instant <= MAX_INSTANT,
    ensures
        (r.0 as int, r.1 as int, r.2 as int) == utc_date_of(instant as int),
        MIN_YEAR <= r.0 <= MAX_YEAR,
        1 <= r.1 <= 12,
        1 <= r.2 <= 31,
{
    let date = chrono::DateTime::from_timestamp(instant, 0).expect("instant in range").date_naive();
    (date.year(), date.month(), date.day())
}

/// Day of the month of the `nth` given weekday, when the month's first
/// day falls on `first_weekday` (weekdays counted from Monday = 0).
pub open spec fn nth_weekday_day(first_weekday: int, weekday: int, nth: int) -> int {
    1 + (7 + weekday - first_weekday) % 7 + 7 * (nth - 1)
}

pub open spec fn date_before(m1: int, d1: int, m2: int, d2: int) -> bool {
    m1 < m2 || (m1 == m2 && d1 < d2)
}

/// Daylight saving time, from the days on which March and November begin.
pub open spec fn dst_with(month: int, day: int, march_first: int, november_first: int) -> bool {
    &&& !date_before(month, day, 3, nth_weekday_day(march_first, 6, 2))
    &&& date_before(month, day, 11, nth_weekday_day(november_first, 6, 1))
}

pub open spec fn is_dst(year: int, month: int, day: int) -> bool {
    dst_with(month, day, weekday_from_monday(year, 3, 1), weekday_from_monday(year, 11, 1))
}

/// Opening and closing second of the regular session (UTC).
pub open spec fn session_bounds(dst: bool) -> (int, int) {
    if dst {
        (48_600int, 72_000int)
    } else {
        (52_200int, 75_600int)
    }
}

pub open spec fn session_label(is_session_day: bool, dst: bool, time: int) -> Seq<char> {
    if !is_session_day {
        "closed"@
    } else if time < session_bounds(dst).0 {
        "pre_market"@
    } else if time >= session_bounds(dst).1 {
        "after_hours"@
    } else {
        "regular"@
    }
}

pub open spec fn session_reason(is_session_day: bool, dst: bool, time: int) -> Option<Seq<char>> {
    if !is_session_day {
        Some("not_us_equity_session"@)
    } else if time < session_bounds(dst).0 {
        Some(
            if dst {
                "regular session opens at 13:30:00 UTC"@
            } else {
                "regular session opens at 14:30:00 UTC"@
            },
        )
    } else if time >= session_bounds(dst).1 {
        Some(
            if dst {
                "regular session closed at 20:00:00 UTC"@
            } else {
                "regular session closed at 21:00:00 UTC"@
            },
        )
    } else {
        None
    }
}

pub open spec fn session_matches(s: SessionPolicyState, is_session_day: bool, dst: bool, time: int) -> bool {
    &&& s.label@ == session_label(is_session_day, dst, time)
    &&& s.is_open == (is_session_day && session_bounds(dst).0 <= time < session_bounds(dst).1)
    &&& match (s.reason, session_reason(is_session_day, dst, time)) {
        (Some(a), Some(b)) => a@ == b,
        (None, None) => true,
        _ => false,
    }
}

/// Day of the month of the `nth` `weekday` (Monday = 0) of a month whose
/// first day falls on `first_weekday`.
pub fn nth_weekday_of_month(first_weekday: u32, weekday: u32, nth: u32) -> (r: u32)
    requires
        first_weekday < 7,
        weekday < 7,
        1 <= nth <= 4,
    ensures
        r as int == nth_weekday_day(first_weekday as int, weekday as int, nth as int),
        1 <= r <= 28,
{
    1 + (7 + weekday - first_weekday) % 7 + 7 * (nth - 1)
}

/// Day of the month of the `nth` `weekday` (Monday = 0) of the given month.
fn nth_weekday(year: i32, month: u32, weekday: u32, nth: u32) -> (r: u32)
    requires
        MIN_YEAR <= year <= MAX_YEAR,
        1 <= month <= 12,
        weekday < 7,
        1 <= nth <= 4,
    ensures
        r as int == nth_weekday_day(weekday_from_monday(year as int, month as int, 1), weekday as int, nth as int),
{
    let first = weekday_of_first(year, month);
    nth_weekday_of_month(first, weekday, nth)
}

/// Whether the date lies in daylight saving time, given the weekdays
/// (Monday = 0) on which March and November of its year begin.
pub fn dst_from_first_weekdays(month: u32, day: u32, march_first: u32, november_first: u32) -> (r: bool)
    requires
        march_first < 7,
        november_first < 7,
    ensures
        r == dst_with(month as int, day as int, march_first as int, november_first as int),
{
    let start = nth_weekday_of_month(march_first, 6, 2);
    let end = nth_weekday_of_month(november_first, 6, 1);
    let after_start = month > 3 || (month == 3 && day >= start);
    let before_end = month < 11 || (month == 11 && day < end);
    after_start && before_end
}

fn is_us_eastern_dst(year: i32, month: u32, day: u32) -> (r: bool)
    requires
        MIN_YEAR <= year <= MAX_YEAR,
    ensures
        r == is_dst(year as int, month as int, day as int),
{
    let start = nth_weekday(year, 3, 6, 2);
    let end = nth_weekday(year, 11, 6, 1);
    let after_start = month > 3 || (month == 3 && day >= start);
    let before_end = month < 11 || (month == 11 && day < end);
    after_start && before_end
}

/// Opening and closing second (UTC) of the regular session.
pub fn regular_session_utc_bounds(dst: bool) -> (r: (u32, u32))
    ensures
        (r.0 as int, r.1 as int) == session_bounds(dst),
{
    if dst {
        (48_600, 72_000)
    } else {
        (52_200, 75_600)
    }
}

/// The session state at a second of the day, given whether the day is a
/// trading day and whether daylight saving time applies.
pub fn session_state_at(is_session_day: bool, dst: bool, time: u32) -> (r: SessionPolicyState)
    ensures
        session_matches(r, is_session_day, dst, time as int),
{
    if !is_session_day {
        return SessionPolicyState {
            is_open: false,
            label: owned("closed"),
            reason: Some(owned("not_us_equity_session")),
        };
    }
    let (open, close) = regular_session_utc_bounds(dst);
    if time < open {
        let reason = if dst {
            owned("regular session opens at 13:30:00 UTC")
        } else {
            owned("regular session opens at 14:30:00 UTC")
        };
        return SessionPolicyState { is_open: false, label: owned("pre_market"), reason: Some(reason) };
    }
    if time >= close {
        let reason = if dst {
            owned("regular session closed at 20:00:00 UTC")
        } else {
            owned("regular session closed at 21:00:00 UTC")
        };
        return SessionPolicyState { is_open: false, label: owned("after_hours"), reason: Some(reason) };
    }
    SessionPolicyState { is_open: true, label: owned("regular"), reason: None }
}

/// The session state at an instant. Whether its UTC date is a US equity
/// trading day comes from the exchange calendar, as `is_session_day`.
pub fn session_policy_state(now: i64, is_session_day: bool) -> (r: SessionPolicyState)
    requires
        MIN_INSTANT <= now <= MAX_INSTANT,
    ensures
        ({
            let d = utc_date_of(now as int);
            session_matches(r, is_session_day, is_dst(d.0, d.1, d.2), time_of_day(now))
        }),
{
    if !is_session_day {
        return session_state_at(false, false, 0);
    }
    let (year, month, day) = utc_date(now);
    let dst = is_us_eastern_dst(year, month, day);
    let time = seconds_of_day(now);
    session_state_at(true, dst, time)
}

} // verus!
