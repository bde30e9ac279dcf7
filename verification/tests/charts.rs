use chrono::NaiveDate;
use stocks::charts::{
    chart_lookback_days, intraday_chunk_days, intraday_history_windows, ChartInterval,
    IntradayFetchWindow,
};

fn day(y: i32, m: u32, d: u32) -> i64 {
    let epoch = NaiveDate::from_ymd_opt(1970, 1, 1).unwrap();
    (NaiveDate::from_ymd_opt(y, m, d).unwrap() - epoch).num_days()
}

#[test]
fn intraday_history_windows_backfill_from_oldest_bar() {
    let target = day(2026, 1, 1);
    let oldest = day(2026, 5, 4);

    let windows = intraday_history_windows(target, oldest, 45, 3);

    assert_eq!(
        windows,
        vec![
            IntradayFetchWindow { from: day(2026, 3, 20), to: day(2026, 5, 3) },
            IntradayFetchWindow { from: day(2026, 2, 3), to: day(2026, 3, 19) },
            IntradayFetchWindow { from: target, to: day(2026, 2, 2) },
        ]
    );
}

#[test]
fn intraday_history_windows_do_not_fetch_when_covered() {
    let target = day(2026, 1, 1);
    let oldest = day(2025, 12, 15);

    assert!(intraday_history_windows(target, oldest, 45, 4).is_empty());
}

#[test]
fn intraday_windows_stop_at_the_fetch_budget() {
    let target = day(2026, 1, 1);
    let oldest = day(2026, 5, 4);
    let windows = intraday_history_windows(target, oldest, 7, 2);
    assert_eq!(
        windows,
        vec![
            IntradayFetchWindow { from: day(2026, 4, 27), to: day(2026, 5, 3) },
            IntradayFetchWindow { from: day(2026, 4, 20), to: day(2026, 4, 26) },
        ]
    );
    assert!(intraday_history_windows(target, oldest, 7, 0).is_empty());
}

#[test]
fn chart_intervals_parse_with_daily_default() {
    let i = ChartInterval::parse(Some("15m"));
    assert_eq!(i.label, "15m");
    assert_eq!(i.native, Some("15min"));
    assert_eq!(i.bucket_minutes, 15);
    assert!(i.is_intraday());
    let h = ChartInterval::parse(Some("2h"));
    assert_eq!((h.native, h.bucket_minutes), (Some("1hour"), 120));
    let w = ChartInterval::parse(Some("3W"));
    assert_eq!((w.label, w.native), ("3W", None));
    assert!(!w.is_intraday());
    let d = ChartInterval::parse(None);
    assert_eq!((d.label, d.native, d.bucket_minutes), ("1D", None, 0));
    let junk = ChartInterval::parse(Some("7m"));
    assert_eq!(junk.label, "1D");
}

#[test]
fn chart_lookback_follows_range_and_interval() {
    let intraday = ChartInterval::parse(Some("5m"));
    let daily = ChartInterval::parse(Some("1D"));
    assert_eq!(chart_lookback_days(None, intraday), 7);
    assert_eq!(chart_lookback_days(None, daily), 380);
    assert_eq!(chart_lookback_days(Some("1D"), daily), 2);
    assert_eq!(chart_lookback_days(Some("200D"), daily), 320);
    assert_eq!(chart_lookback_days(Some("ALL"), daily), 365 * 30);
    assert_eq!(chart_lookback_days(Some("10Y"), intraday), 7);
    assert_eq!(chart_lookback_days(Some("10Y"), daily), 380);
}

#[test]
fn intraday_chunks_by_native_interval() {
    assert_eq!(intraday_chunk_days("1min"), 7);
    assert_eq!(intraday_chunk_days("5min"), 14);
    assert_eq!(intraday_chunk_days("1hour"), 120);
    assert_eq!(intraday_chunk_days("4hour"), 365);
    assert_eq!(intraday_chunk_days("weird"), 45);
}
