use chrono::{TimeZone, Utc};
use stocks::session::{
    dst_from_first_weekdays, nth_weekday_of_month, regular_session_utc_bounds, session_policy_state,
    session_state_at, MAX_INSTANT, MIN_INSTANT,
};

fn at(y: i32, m: u32, d: u32, h: u32, min: u32) -> i64 {
    Utc.with_ymd_and_hms(y, m, d, h, min, 0).unwrap().timestamp()
}

#[test]
fn session_policy_tracks_regular_us_equity_hours() {
    // 30 June 2026 is a trading day; 4 July 2026 is a Saturday.
    let summer_open = at(2026, 6, 30, 14, 0);
    let after_hours = at(2026, 6, 30, 20, 30);
    let weekend = at(2026, 7, 4, 16, 0);

    assert_eq!(session_policy_state(summer_open, true).label, "regular");
    assert_eq!(session_policy_state(after_hours, true).label, "after_hours");
    assert_eq!(session_policy_state(weekend, false).label, "closed");
}

#[test]
fn winter_hours_shift_by_one_hour() {
    let pre = session_policy_state(at(2026, 1, 15, 14, 0), true);
    assert_eq!(pre.label, "pre_market");
    assert!(!pre.is_open);
    assert_eq!(pre.reason.as_deref(), Some("regular session opens at 14:30:00 UTC"));

    let open = session_policy_state(at(2026, 1, 15, 20, 30), true);
    assert_eq!(open.label, "regular");
    assert!(open.is_open);
    assert_eq!(open.reason, None);

    let closed = session_policy_state(at(2026, 1, 15, 21, 0), true);
    assert_eq!(closed.reason.as_deref(), Some("regular session closed at 21:00:00 UTC"));

    let summer_close = session_policy_state(at(2026, 6, 30, 20, 0), true);
    assert_eq!(summer_close.reason.as_deref(), Some("regular session closed at 20:00:00 UTC"));
    let holiday = session_policy_state(at(2026, 6, 30, 15, 0), false);
    assert_eq!(holiday.reason.as_deref(), Some("not_us_equity_session"));
}

#[test]
fn daylight_saving_runs_from_second_sunday_of_march_to_first_sunday_of_november() {
    // 2026: 8 March and 1 November are those Sundays.
    assert_eq!(session_policy_state(at(2026, 3, 7, 13, 45), true).label, "pre_market");
    assert_eq!(session_policy_state(at(2026, 3, 8, 13, 45), true).label, "regular");
    assert_eq!(session_policy_state(at(2026, 10, 31, 13, 45), true).label, "regular");
    assert_eq!(session_policy_state(at(2026, 11, 1, 13, 45), true).label, "pre_market");
}

#[test]
fn nth_weekday_from_the_first_of_the_month() {
    // March 2026 begins on a Sunday (6), November 2026 on a Sunday too.
    assert_eq!(nth_weekday_of_month(6, 6, 2), 8);
    assert_eq!(nth_weekday_of_month(6, 6, 1), 1);
    // A month that begins on a Monday has its first Sunday on the 7th.
    assert_eq!(nth_weekday_of_month(0, 6, 1), 7);
    assert_eq!(nth_weekday_of_month(3, 1, 4), 27);
    assert!(dst_from_first_weekdays(3, 8, 6, 6));
    assert!(!dst_from_first_weekdays(3, 7, 6, 6));
    assert!(!dst_from_first_weekdays(11, 1, 6, 6));
    assert!(dst_from_first_weekdays(7, 4, 6, 6));
    assert!(!dst_from_first_weekdays(12, 24, 6, 6));
}

#[test]
fn session_bounds_and_states() {
    assert_eq!(regular_session_utc_bounds(true), (48_600, 72_000));
    assert_eq!(regular_session_utc_bounds(false), (52_200, 75_600));
    assert_eq!(session_state_at(true, true, 48_599).label, "pre_market");
    assert_eq!(session_state_at(true, true, 48_600).label, "regular");
    assert_eq!(session_state_at(true, false, 75_600).label, "after_hours");
    assert_eq!(session_state_at(false, true, 50_000).label, "closed");
}

#[test]
fn calendar_edges_are_dates() {
    let first = session_policy_state(MIN_INSTANT, true);
    assert_eq!(first.label, "pre_market");
    let last = session_policy_state(MAX_INSTANT, true);
    assert_eq!(last.label, "after_hours");
}
