//! Chart request rules: which bar interval a request asks for, how far
//! back it looks, and which intraday windows backfill missing history.
//!
//! Dates are day numbers (days since 1970-01-01).

use vstd::prelude::*;
use crate::text::str_eq;
use crate::session::{MIN_DAY, MAX_DAY};

verus! {

/// Intraday fetches that one chart request may make.
pub const MAX_INTRADAY_FETCHES_PER_CHART_REQUEST: usize = 4;

/// A chart bar interval: its label, the provider's native intraday interval
/// (none for daily and longer bars) and the minutes each bar spans.
#[derive(Clone, Copy, Debug)]
pub struct ChartInterval {
    pub label: &'static str,
    pub native: Option<&'static str>,
    pub bucket_minutes: i64,
}

pub type IntervalView = (Seq<char>, Option<Seq<char>>, int);

pub open spec fn interval_view(i: ChartInterval) -> IntervalView {
    (i.label@, match i.native {
        Some(n) => Some(n@),
        None => None,
    }, i.bucket_minutes as int)
}

pub open spec fn daily_interval() -> IntervalView {
    ("1D"@, None, 0)
}

/// The interval that a requested label names; daily bars for anything else.
pub open spec fn interval_for(raw: Seq<char>) -> IntervalView {
    if raw == "1m"@ {
        ("1m"@, Some("1min"@), 1)
    } else if raw == "3m"@ {
        ("3m"@, Some("1min"@), 3)
    } else if raw == "5m"@ {
        ("5m"@, Some("5min"@), 5)
    } else if raw == "15m"@ {
        ("15m"@, Some("15min"@), 15)
    } else if raw == "30m"@ {
        ("30m"@, Some("30min"@), 30)
    } else if raw == "1h"@ {
        ("1h"@, Some("1hour"@), 60)
    } else if raw == "2h"@ {
        ("2h"@, Some("1hour"@), 120)
    } else if raw == "4h"@ {
        ("4h"@, Some("4hour"@), 240)
    } else if raw == "1W"@ {
        ("1W"@, None, 0)
    } else if raw == "3W"@ {
        ("3W"@, None, 0)
    } else if raw == "1M"@ {
        ("1M"@, None, 0)
    } else {
        daily_interval()
    }
}

pub open spec fn parse_interval(raw: Option<Seq<char>>) -> IntervalView {
    match raw {
        Some(s) => interval_for(s),
        None => daily_interval(),
    }
}

fn interval(label: &'static str, native: Option<&'static str>, bucket_minutes: i64) -> (r: ChartInterval)
    ensures
        r == (ChartInterval { label, native, bucket_minutes }),
{
    ChartInterval { label, native, bucket_minutes }
}

impl ChartInterval {
    /// The interval a request names; daily bars when it names none or an unknown one.
    pub fn parse(raw: Option<&str>) -> (r: ChartInterval)
        ensures
            interval_view(r) == parse_interval(match raw {
                Some(s) => Some(s@),
                None => None,
            }),
    {
        let s = match raw {
            Some(s) => s,
            None => {
                return interval("1D", None, 0);
            },
        };
        if str_eq(s, "1m") {
            interval("1m", Some("1min"), 1)
        } else if str_eq(s, "3m") {
            interval("3m", Some("1min"), 3)
        } else if str_eq(s, "5m") {
            interval("5m", Some("5min"), 5)
        } else if str_eq(s, "15m") {
            interval("15m", Some("15min"), 15)
        } else if str_eq(s, "30m") {
            interval("30m", Some("30min"), 30)
        } else if str_eq(s, "1h") {
            interval("1h", Some("1hour"), 60)
        } else if str_eq(s, "2h") {
            interval("2h", Some("1hour"), 120)
        } else if str_eq(s, "4h") {
            interval("4h", Some("4hour"), 240)
        } else if str_eq(s, "1W") {
            interval("1W", None, 0)
        } else if str_eq(s, "3W") {
            interval("3W", None, 0)
        } else if str_eq(s, "1M") {
            interval("1M", None, 0)
        } else {
            interval("1D", None, 0)
        }
    }

    /// Intraday intervals are those the provider serves natively.
    pub fn is_intraday(self) -> (r: bool)
        ensures
            r == self.native is Some,
    {
        self.native.is_some()
    }
}

/// Days of history that a chart range covers; without a range, five days
/// for intraday bars and a year for daily ones.
pub open spec fn lookback_for(range: Seq<char>, intraday: bool) -> int {
    if range == "1D"@ {
        2
    } else if range == "5D"@ {
        7
    } else if range == "1M"@ {
        35
    } else if range == "3M"@ {
        100
    } else if range == "6M"@ {
        200
    } else if range == "200D"@ {
        320
    } else if range == "1Y"@ {
        380
    } else if range == "2Y"@ {
        760
    } else if range == "ALL"@ {
        10_950int
    } else if intraday {
        7
    } else {
        380
    }
}

pub open spec fn lookback_days(range: Option<Seq<char>>, intraday: bool) -> int {
    match range {
        Some(r) => lookback_for(r, intraday),
        None => if intraday {
            7
        } else {
            380
        },
    }
}

pub fn chart_lookback_days(range: Option<&str>, interval: ChartInterval) -> (r: i64)
    ensures
        r == lookback_days(match range {
            Some(s) => Some(s@),
            None => None,
        }, interval.native is Some),
{
    let intraday = interval.is_intraday();
    let r = match range {
        Some(r) => r,
        None => {
            return if intraday { 7 } else { 380 };
        },
    };
    if str_eq(r, "1D") {
        2
    } else if str_eq(r, "5D") {
        7
    } else if str_eq(r, "1M") {
        35
    } else if str_eq(r, "3M") {
        100
    } else if str_eq(r, "6M") {
        200
    } else if str_eq(r, "200D") {
        320
    } else if str_eq(r, "1Y") {
        380
    } else if str_eq(r, "2Y") {
        760
    } else if str_eq(r, "ALL") {
        365 * 30
    } else if intraday {
        7
    } else {
        380
    }
}

/// Days of intraday bars that one provider request may span.
pub open spec fn chunk_days_for(native: Seq<char>) -> int {
    if native == "1min"@ {
        7
    } else if native == "5min"@ {
        14
    } else if native == "15min"@ {
        45
    } else if native == "30min"@ {
        45
    } else if native == "1hour"@ {
        120
    } else if native == "4hour"@ {
        365
    } else {
        45
    }
}

pub fn intraday_chunk_days(native_interval: &str) -> (r: i64)
    ensures
        r == chunk_days_for(native_interval@),
        1 <= r <= 365,
{
    if str_eq(native_interval, "1min") {
        7
    } else if str_eq(native_interval, "5min") {
        14
    } else if str_eq(native_interval, "15min") {
        45
    } else if str_eq(native_interval, "30min") {
        45
    } else if str_eq(native_interval, "1hour") {
        120
    } else if str_eq(native_interval, "4hour") {
        365
    } else {
        45
    }
}

/// A span of days (both ends included) to fetch intraday bars for.
#[derive(Clone, Copy, Debug, PartialEq, Eq, Structural)]
pub struct IntradayFetchWindow {
    pub from: i64,
    pub to: i64,
}

/// At most `k` windows of `chunk` days, newest first, going back from day
/// `to` and stopping at `target_from`.
pub open spec fn windows_back(target_from: int, to: int, chunk: int, k: nat) -> Seq<(int, int)>
    decreases k,
{
    if k == 0 || to < target_from {
        seq![]
    } else {
        let from = if to - (chunk - 1) > target_from { to - (chunk - 1) } else { target_from };
        seq![(from, to)] + if from <= target_from {
            seq![]
        } else {
            windows_back(target_from, from - 1, chunk, (k - 1) as nat)
        }
    }
}

/// Every window start computed on the way back is a day the calendar can
/// represent.
pub open spec fn steps_in_range(target_from: int, to: int, chunk: int, k: nat) -> bool
    decreases k,
{
    if k == 0 || to < target_from {
        true
    } else {
        let from = if to - (chunk - 1) > target_from { to - (chunk - 1) } else { target_from };
        &&& MIN_DAY <= to - (chunk - 1) <= MAX_DAY
        &&& (from <= target_from || steps_in_range(target_from, from - 1, chunk, (k - 1) as nat))
    }
}

/// The windows that backfill history from the day before the oldest bar
/// held back to `target_from`, newest first, at most `max_windows` of them.
pub open spec fn history_windows(target_from: int, oldest: int, chunk: int, max_windows: nat) -> Seq<(int, int)> {
    if oldest <= target_from || max_windows == 0 {
        seq![]
    } else {
        windows_back(target_from, oldest - 1, chunk, max_windows)
    }
}

pub open spec fn window_pairs(w: Seq<IntradayFetchWindow>) -> Seq<(int, int)> {
    w.map_values(|x: IntradayFetchWindow| (x.from as int, x.to as int))
}

proof fn lemma_windows_step(target_from: int, to: int, chunk: int, k: nat)
    requires
        k > 0,
        to >= target_from,
    ensures
        ({
            let from = if to - (chunk - 1) > target_from { to - (chunk - 1) } else { target_from };
            windows_back(target_from, to, chunk, k) == seq![(from, to)] + if from <= target_from {
                seq![]
            } else {
                windows_back(target_from, from - 1, chunk, (k - 1) as nat)
            }
        }),
{
}

pub fn intraday_history_windows(target_from: i64, oldest: i64, chunk_days: i64, max_windows: usize) -> (r: Vec<IntradayFetchWindow>)
    requires
        MIN_DAY <= target_from <= MAX_DAY,
        MIN_DAY <= oldest <= MAX_DAY,
        oldest > target_from && max_windows > 0 ==> steps_in_range(
            target_from as int,
            oldest - 1,
            chunk_days as int,
            max_windows as nat,
        ),
    ensures
        window_pairs(r@) == history_windows(target_from as int, oldest as int, chunk_days as int, max_windows as nat),
{
    let mut windows: Vec<IntradayFetchWindow> = Vec::new();
    if oldest <= target_from || max_windows == 0 {
        assert(window_pairs(windows@) =~= seq![]);
        return windows;
    }
    let mut to = oldest - 1;
    let ghost whole = history_windows(target_from as int, oldest as int, chunk_days as int, max_windows as nat);
    while to >= target_from && windows.len() < max_windows
        invariant
            MIN_DAY <= target_from <= MAX_DAY,
            MIN_DAY - 1 <= to <= MAX_DAY,
            steps_in_range(target_from as int, to as int, chunk_days as int, (max_windows - windows@.len()) as nat),
            windows@.len() <= max_windows,
            oldest > target_from,
            max_windows > 0,
            whole == history_windows(target_from as int, oldest as int, chunk_days as int, max_windows as nat),
            whole == window_pairs(windows@) + windows_back(
                target_from as int,
                to as int,
                chunk_days as int,
                (max_windows - windows@.len()) as nat,
            ),
        decreases max_windows - windows@.len(),
    {
        let ghost k: nat = (max_windows - windows@.len()) as nat;
        let from = if to - (chunk_days - 1) > target_from { to - (chunk_days - 1) } else { target_from };
        proof {
            lemma_windows_step(target_from as int, to as int, chunk_days as int, k);
        }
        let ghost before = windows@;
        windows.push(IntradayFetchWindow { from, to });
        assert(window_pairs(windows@) =~= window_pairs(before) + seq![(from as int, to as int)]);
        if from <= target_from {
            assert(whole =~= window_pairs(windows@));
            return windows;
        }
        to = from - 1;
        assert(whole =~= window_pairs(windows@) + windows_back(
            target_from as int,
            to as int,
            chunk_days as int,
            (max_windows - windows@.len()) as nat,
        ));
    }
    assert(windows_back(target_from as int, to as int, chunk_days as int, (max_windows - windows@.len()) as nat) =~= Seq::<(int, int)>::empty());
    assert(whole =~= window_pairs(windows@));
    windows
}

} // verus!
