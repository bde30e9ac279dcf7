//! Whether market data and conditions allow trading a symbol right now.
//!
//! Times are seconds since the epoch (UTC); no-trade windows are given in
//! seconds since UTC midnight. Price comparisons arrive as their outcome.

use vstd::prelude::*;
use crate::order::{sort_dedup, sorted_enum, views, reason_if, push_when};
use crate::strategy::{MAX_SPAN_DAYS, SECS_PER_DAY};

verus! {

#[derive(Clone, Copy, Debug, PartialEq, Eq, Structural)]
pub enum HaltState {
    Unknown,
    NotHalted,
    Halted,
}

/// A configured window of the day (UTC) in which nothing trades; a window
/// whose start is after its end wraps past midnight.
#[derive(Clone, Debug)]
pub struct NoTradeWindow {
    pub label: String,
    pub start_utc: u32,
    pub end_utc: u32,
}

#[derive(Clone, Debug)]
pub struct MarketReadinessInput {
    pub now: i64,
    pub latest_bar_at: Option<i64>,
    /// A latest price above zero is known.
    pub price_available: bool,
    /// The gap between latest price and previous close exceeds the allowed gap.
    pub gap_exceeds_max: bool,
    pub max_age_days: i64,
    pub session_open: bool,
    pub halt_state: HaltState,
    pub corporate_actions_adjusted: bool,
    pub no_trade_windows_utc: Vec<NoTradeWindow>,
}

#[derive(Clone, Debug)]
pub struct MarketReadinessDecision {
    pub status: &'static str,
    pub blocked_reasons: Vec<String>,
    pub active_no_trade_window: Option<String>,
}

pub open spec fn in_window(start: u32, end: u32, t: int) -> bool {
    if start <= end {
        start <= t && t <= end
    } else {
        t >= start || t <= end
    }
}

/// Seconds since UTC midnight of an epoch time.
pub open spec fn time_of_day(now: i64) -> int {
    (now as int) % SECS_PER_DAY as int
}

pub open spec fn max_age(d: i64) -> int {
    if d < 1 {
        1
    } else {
        d as int
    }
}

/// Index of the first window containing `t`, from `i` on.
pub open spec fn first_window(ws: Seq<NoTradeWindow>, t: int, i: int) -> Option<int>
    decreases ws.len() - i,
{
    if i < 0 || i >= ws.len() {
        None
    } else if in_window(ws[i].start_utc, ws[i].end_utc, t) {
        Some(i)
    } else {
        first_window(ws, t, i + 1)
    }
}

pub open spec fn market_blockers(inp: MarketReadinessInput) -> Set<Seq<char>> {
    reason_if(!inp.price_available, "market_price_missing"@) + match inp.latest_bar_at {
        Some(l) => reason_if(inp.now - l > max_age(inp.max_age_days) * SECS_PER_DAY, "market_bar_stale"@),
        None => reason_if(true, "market_bar_missing"@),
    } + reason_if(inp.gap_exceeds_max, "market_bar_gap_anomaly"@) + reason_if(
        !inp.session_open,
        "market_session_closed"@,
    ) + reason_if(inp.halt_state == HaltState::Halted, "market_halt_or_suspension"@) + reason_if(
        !inp.corporate_actions_adjusted,
        "corporate_action_state_unsupported"@,
    ) + reason_if(
        first_window(inp.no_trade_windows_utc@, time_of_day(inp.now), 0) is Some,
        "no_trade_window"@,
    )
}

/// Whether `time` (seconds since midnight) falls in the window, ends included.
pub fn window_contains(window: &NoTradeWindow, time: u32) -> (r: bool)
    ensures
        r == in_window(window.start_utc, window.end_utc, time as int),
{
    if window.start_utc <= window.end_utc {
        time >= window.start_utc && time <= window.end_utc
    } else {
        time >= window.start_utc || time <= window.end_utc
    }
}

pub(crate) fn seconds_of_day(now: i64) -> (r: u32)
    ensures
        r as int == time_of_day(now),
{
    match now.checked_rem_euclid(SECS_PER_DAY) {
        Some(m) => m as u32,
        None => 0,
    }
}

/// Index of the first window that contains `t`.
fn find_window(ws: &Vec<NoTradeWindow>, t: u32) -> (r: Option<usize>)
    ensures
        match (r, first_window(ws@, t as int, 0)) {
            (Some(i), Some(j)) => i as int == j,
            (None, None) => true,
            _ => false,
        },
        r matches Some(i) ==> i < ws@.len(),
{
    let mut i: usize = 0;
    while i < ws.len()
        invariant
            i <= ws@.len(),
            first_window(ws@, t as int, 0) == first_window(ws@, t as int, i as int),
        decreases ws.len() - i,
    {
        if window_contains(&ws[i], t) {
            return Some(i);
        }
        i += 1;
    }
    None
}

/// Market readiness: the sorted blocking reasons, `ready` or `blocked`, and
/// the first configured no-trade window that contains the current time.
pub fn evaluate_market_readiness(input: &MarketReadinessInput) -> (r: MarketReadinessDecision)
    requires
        input.latest_bar_at is Some ==> input.max_age_days <= MAX_SPAN_DAYS,
    ensures
        views(r.blocked_reasons@) == sorted_enum(market_blockers(*input)),
        r.status@ == (if market_blockers(*input).is_empty() {
            "ready"@
        } else {
            "blocked"@
        }),
        match (r.active_no_trade_window, first_window(input.no_trade_windows_utc@, time_of_day(input.now), 0)) {
            (Some(l), Some(i)) => l@ == input.no_trade_windows_utc@[i].label@,
            (None, None) => true,
            _ => false,
        },
{
    let t = seconds_of_day(input.now);
    let found = find_window(&input.no_trade_windows_utc, t);
    let active: Option<String> = match found {
        Some(i) => Some(input.no_trade_windows_utc[i].label.clone()),
        None => None,
    };
    let mut v: Vec<String> = Vec::new();
    assert(views(v@).to_set() =~= Set::empty());
    push_when(&mut v, !input.price_available, "market_price_missing");
    match input.latest_bar_at {
        Some(l) => {
            let days: i64 = if input.max_age_days < 1 { 1 } else { input.max_age_days };
            assert(1 <= days <= MAX_SPAN_DAYS);
            assert((days as i128) * (SECS_PER_DAY as i128) <= MAX_SPAN_DAYS * 86400) by (nonlinear_arith)
                requires days <= MAX_SPAN_DAYS, SECS_PER_DAY == 86400;
            push_when(&mut v, (input.now as i128) - (l as i128) > (days as i128) * (SECS_PER_DAY as i128), "market_bar_stale");
        },
        None => {
            push_when(&mut v, true, "market_bar_missing");
        },
    }
    push_when(&mut v, input.gap_exceeds_max, "market_bar_gap_anomaly");
    push_when(&mut v, !input.session_open, "market_session_closed");
    push_when(&mut v, input.halt_state == HaltState::Halted, "market_halt_or_suspension");
    push_when(&mut v, !input.corporate_actions_adjusted, "corporate_action_state_unsupported");
    push_when(&mut v, active.is_some(), "no_trade_window");
    assert(views(v@).to_set() =~= market_blockers(*input));
    let blocked_reasons = sort_dedup(v);
    let status = if blocked_reasons.len() == 0 { "ready" } else { "blocked" };
    MarketReadinessDecision { status, blocked_reasons, active_no_trade_window: active }
}

} // verus!
