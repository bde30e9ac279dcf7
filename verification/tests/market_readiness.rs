use chrono::{TimeZone, Utc};
use stocks::market_readiness::{
    evaluate_market_readiness, window_contains, HaltState, MarketReadinessInput, NoTradeWindow,
};

fn now() -> i64 {
    Utc.with_ymd_and_hms(2026, 6, 30, 15, 0, 0).unwrap().timestamp()
}

const HOUR: i64 = 3_600;
const DAY: i64 = 86_400;

/// Latest price 100 against a previous close of 99, within a 20% gap limit.
fn base_input() -> MarketReadinessInput {
    MarketReadinessInput {
        now: now(),
        latest_bar_at: Some(now() - 2 * HOUR),
        price_available: true,
        gap_exceeds_max: false,
        max_age_days: 1,
        session_open: true,
        halt_state: HaltState::NotHalted,
        corporate_actions_adjusted: true,
        no_trade_windows_utc: Vec::new(),
    }
}

fn reasons(input: MarketReadinessInput) -> Vec<String> {
    evaluate_market_readiness(&input).blocked_reasons
}

#[test]
fn fresh_market_inputs_are_ready() {
    let decision = evaluate_market_readiness(&base_input());

    assert_eq!(decision.status, "ready");
    assert!(decision.blocked_reasons.is_empty());
}

#[test]
fn missing_latest_price_blocks() {
    let mut input = base_input();
    input.price_available = false;

    assert!(reasons(input).iter().any(|reason| reason == "market_price_missing"));
}

#[test]
fn stale_daily_bar_blocks() {
    let mut input = base_input();
    input.latest_bar_at = Some(now() - 3 * DAY);

    assert!(reasons(input).iter().any(|reason| reason == "market_bar_stale"));
}

#[test]
fn suspicious_gap_blocks() {
    // Latest price 140 against a previous close of 100: a 40% gap.
    let mut input = base_input();
    input.gap_exceeds_max = true;

    assert!(reasons(input).iter().any(|reason| reason == "market_bar_gap_anomaly"));
}

#[test]
fn closed_session_blocks() {
    let mut input = base_input();
    input.session_open = false;

    assert!(reasons(input).iter().any(|reason| reason == "market_session_closed"));
}

#[test]
fn halt_indicator_blocks() {
    let mut input = base_input();
    input.halt_state = HaltState::Halted;

    assert!(reasons(input).iter().any(|reason| reason == "market_halt_or_suspension"));
}

#[test]
fn unsupported_corporate_action_state_blocks() {
    let mut input = base_input();
    input.corporate_actions_adjusted = false;

    assert!(reasons(input).iter().any(|reason| reason == "corporate_action_state_unsupported"));
}

#[test]
fn configured_no_trade_window_blocks() {
    let mut input = base_input();
    input.no_trade_windows_utc = vec![NoTradeWindow {
        label: "open_auction".to_string(),
        start_utc: 14 * 3600 + 55 * 60,
        end_utc: 15 * 3600 + 5 * 60,
    }];

    assert!(reasons(input).iter().any(|reason| reason == "no_trade_window"));
}

#[test]
fn blocked_reasons_are_sorted_and_name_the_active_window() {
    let mut input = base_input();
    input.latest_bar_at = None;
    input.session_open = false;
    input.price_available = false;
    input.no_trade_windows_utc = vec![
        NoTradeWindow { label: "lunch".to_string(), start_utc: 0, end_utc: 60 },
        NoTradeWindow { label: "open_auction".to_string(), start_utc: 14 * 3600, end_utc: 16 * 3600 },
        NoTradeWindow { label: "later".to_string(), start_utc: 14 * 3600, end_utc: 17 * 3600 },
    ];
    let decision = evaluate_market_readiness(&input);
    assert_eq!(decision.status, "blocked");
    assert_eq!(
        decision.blocked_reasons,
        vec![
            "market_bar_missing".to_string(),
            "market_price_missing".to_string(),
            "market_session_closed".to_string(),
            "no_trade_window".to_string(),
        ]
    );
    assert_eq!(decision.active_no_trade_window, Some("open_auction".to_string()));
}

#[test]
fn bar_age_limit_is_at_least_one_day() {
    let mut input = base_input();
    input.max_age_days = 0;
    input.latest_bar_at = Some(now() - DAY);
    assert!(reasons(input.clone()).is_empty());
    input.latest_bar_at = Some(now() - DAY - 1);
    assert_eq!(reasons(input), vec!["market_bar_stale".to_string()]);
}

#[test]
fn windows_that_wrap_midnight() {
    let overnight = NoTradeWindow { label: "overnight".to_string(), start_utc: 23 * 3600, end_utc: 3600 };
    assert!(window_contains(&overnight, 23 * 3600 + 30));
    assert!(window_contains(&overnight, 10));
    assert!(window_contains(&overnight, 3600));
    assert!(!window_contains(&overnight, 12 * 3600));
    let plain = NoTradeWindow { label: "noon".to_string(), start_utc: 12 * 3600, end_utc: 12 * 3600 };
    assert!(window_contains(&plain, 12 * 3600));
    assert!(!window_contains(&plain, 12 * 3600 + 1));
}
