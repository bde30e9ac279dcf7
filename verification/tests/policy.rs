use chrono::{TimeZone, Utc};
use stocks::policy::{
    evaluate_proof_policy, permission_snapshot, risk_status, risk_warnings, AutomationControlState, PermissionSnapshot,
    ProofPolicyInput, SessionPolicyState,
};
use stocks::strategy::{StrategyDecisionKind, TargetSide, TradePermission};

fn now() -> i64 {
    Utc.with_ymd_and_hms(2026, 6, 30, 14, 0, 0).unwrap().timestamp()
}

const DAY: i64 = 86_400;

fn permission() -> TradePermission {
    TradePermission {
        permission_id: "00000000-0000-0000-0000-000000000000".to_string(),
        symbol: "NVDA".to_string(),
        strategy_id: "technical_timing".to_string(),
        strategy_version: "0.1.0".to_string(),
        status: "approved".to_string(),
        instrument_scope: "equity_long_only".to_string(),
        environment_scope: "shadow".to_string(),
        manual_freeze: false,
        expires_at: Some(now() + 10 * DAY),
    }
}

/// A long 5% target against caps of 10% and $20,000 ($5,000 targeted).
fn base_input() -> ProofPolicyInput {
    ProofPolicyInput {
        strategy_id: "technical_timing".to_string(),
        strategy_version: "0.1.0".to_string(),
        config_hash: "sha256:test".to_string(),
        family: "technical_timing".to_string(),
        strategy_status: "shadow".to_string(),
        permission: Some(permission()),
        decision_kind: StrategyDecisionKind::EmitDesired,
        decision_target_side: Some(TargetSide::Long),
        decision_reason_codes: vec!["technical_long_constructive".to_string()],
        decision_blocked_reasons: vec![],
        control: AutomationControlState {
            kill_switch_enabled: false,
            kill_switch_reason: None,
        },
        data_freshness_status: "fresh".to_string(),
        data_freshness_latest_bar_at: Some(now() - 3_600),
        data_freshness_max_age_days: 5,
        data_freshness_stale: false,
        session: SessionPolicyState {
            is_open: true,
            label: "regular".to_string(),
            reason: None,
        },
        risk_veto: false,
        risk_reasons: vec![],
        risk_warnings: vec![],
        weight_exceeds_cap: false,
        notional_exceeds_cap: false,
        sleeve_status: "active".to_string(),
        broker_status: "in_sync".to_string(),
        broker_mismatch: false,
        broker_latest_sync_at: Some(now() - 300),
        now: now(),
    }
}

fn assert_blocked(input: ProofPolicyInput, reason: &str) {
    let proof = evaluate_proof_policy(&input);
    assert_eq!(proof.result, "blocked");
    assert!(
        proof.blocked_reasons.iter().any(|r| r == reason),
        "missing {reason:?} in {:?}",
        proof.blocked_reasons
    );
}

#[test]
fn stale_data_blocks_proof() {
    let mut input = base_input();
    input.data_freshness_stale = true;
    input.data_freshness_status = "stale".to_string();
    assert_blocked(input, "data_freshness_stale");
}

#[test]
fn missing_or_frozen_permission_blocks_proof() {
    let mut input = base_input();
    input.permission = None;
    assert_blocked(input, "permission_missing");

    let mut input = base_input();
    input.permission.as_mut().unwrap().manual_freeze = true;
    assert_blocked(input, "permission_frozen");
}

#[test]
fn exceeded_allocation_blocks_proof() {
    // The caller found the target weight above the permission's cap.
    let mut input = base_input();
    input.weight_exceeds_cap = true;
    assert_blocked(input, "allocation_exceeds_permission_cap");
}

#[test]
fn risk_veto_blocks_proof() {
    let mut input = base_input();
    input.risk_veto = true;
    input.risk_reasons = vec!["drawdown_brake_halt".to_string()];
    assert_blocked(input, "risk_drawdown_brake_halt");
}

#[test]
fn closed_session_blocks_proof() {
    let mut input = base_input();
    input.session.is_open = false;
    input.session.reason = Some("market closed".to_string());
    assert_blocked(input, "session_closed");
}

#[test]
fn broker_mismatch_blocks_proof() {
    let mut input = base_input();
    input.broker_mismatch = true;
    input.broker_status = "mismatch".to_string();
    assert_blocked(input, "broker_state_mismatch");
}

#[test]
fn kill_switch_blocks_proof() {
    let mut input = base_input();
    input.control.kill_switch_enabled = true;
    input.control.kill_switch_reason = Some("operator halt".to_string());
    assert_blocked(input, "automation_kill_switch");
}

#[test]
fn clean_proof_passes_and_warnings_downgrade_it() {
    let proof = evaluate_proof_policy(&base_input());
    assert_eq!(proof.result, "passed");
    assert!(proof.blocked_reasons.is_empty());

    let mut input = base_input();
    input.risk_warnings = vec!["portfolio_demo".to_string()];
    let proof = evaluate_proof_policy(&input);
    assert_eq!(proof.result, "warning");
    assert!(proof.blocked_reasons.is_empty());
}

#[test]
fn every_blocking_reason_is_listed_once_in_order() {
    let mut input = base_input();
    input.config_hash = "   ".to_string();
    input.decision_kind = StrategyDecisionKind::Blocked;
    input.decision_blocked_reasons = vec!["technical_stale".to_string(), "technical_stale".to_string()];
    input.data_freshness_status = "missing".to_string();
    input.sleeve_status = "closed".to_string();
    input.notional_exceeds_cap = true;
    input.permission.as_mut().unwrap().expires_at = Some(now());
    input.permission.as_mut().unwrap().strategy_version = "0.2.0".to_string();
    let proof = evaluate_proof_policy(&input);
    assert_eq!(proof.result, "blocked");
    assert_eq!(
        proof.blocked_reasons,
        vec![
            "allocation_exceeds_notional_cap".to_string(),
            "data_freshness_missing".to_string(),
            "permission_expired".to_string(),
            "permission_strategy_mismatch".to_string(),
            "sleeve_closed".to_string(),
            "strategy_config_hash_missing".to_string(),
            "technical_stale".to_string(),
        ]
    );
}

#[test]
fn missing_permission_is_recorded_as_missing() {
    let mut input = base_input();
    input.permission = None;
    let proof = evaluate_proof_policy(&input);
    assert_eq!(proof.result, "blocked");
    assert_eq!(proof.blocked_reasons, vec!["permission_missing".to_string()]);
    assert!(matches!(proof.permission_snapshot, PermissionSnapshot::Missing));
    assert_eq!(proof.permission_snapshot.status(), "missing");
}

#[test]
fn proof_records_what_it_looked_at() {
    let mut input = base_input();
    input.session.is_open = false;
    input.session.reason = Some("market closed".to_string());
    input.risk_warnings = vec!["portfolio_demo".to_string()];
    input.notional_exceeds_cap = true;
    let proof = evaluate_proof_policy(&input);
    assert_eq!(proof.input_snapshot.evaluated_at, now());
    assert_eq!(proof.input_snapshot.strategy.strategy_id, "technical_timing");
    assert_eq!(proof.input_snapshot.strategy.strategy_config_hash, "sha256:test");
    assert_eq!(proof.input_snapshot.strategy.family, "technical_timing");
    assert_eq!(proof.input_snapshot.strategy.status, "shadow");
    assert_eq!(proof.input_snapshot.decision.kind, StrategyDecisionKind::EmitDesired);
    assert_eq!(proof.input_snapshot.decision.target_side, Some(TargetSide::Long));
    assert_eq!(
        proof.input_snapshot.decision.reason_codes,
        vec!["technical_long_constructive".to_string()]
    );
    assert!(!proof.input_snapshot.control.kill_switch_enabled);
    match &proof.permission_snapshot {
        PermissionSnapshot::Recorded(p) => {
            assert_eq!(p.symbol, "NVDA");
            assert_eq!(p.status, "approved");
            assert_eq!(p.expires_at, Some(now() + 10 * DAY));
        }
        PermissionSnapshot::Missing => panic!("permission not recorded"),
    }
    assert_eq!(proof.permission_snapshot.status(), "approved");
    assert!(!proof.risk_result.veto);
    assert_eq!(proof.risk_result.warnings, vec!["portfolio_demo".to_string()]);
    assert_eq!(proof.data_freshness.status, "fresh");
    assert_eq!(proof.data_freshness.latest_bar_at, Some(now() - 3_600));
    assert_eq!(proof.data_freshness.max_age_days, 5);
    assert!(!proof.session_state.is_open);
    assert_eq!(proof.session_state.reason, Some("market closed".to_string()));
    assert!(proof.capital_allocation.notional_exceeds_cap);
    assert!(!proof.capital_allocation.weight_exceeds_cap);
    assert_eq!(proof.broker_reconciliation.status, "in_sync");
    assert_eq!(proof.broker_reconciliation.latest_sync_at, Some(now() - 300));
    assert_eq!(
        proof.blocked_reasons,
        vec!["allocation_exceeds_notional_cap".to_string(), "session_closed".to_string()]
    );
}

#[test]
fn permission_snapshot_copies_the_permission() {
    match permission_snapshot(&Some(permission())) {
        PermissionSnapshot::Recorded(p) => {
            assert_eq!(p.permission_id, "00000000-0000-0000-0000-000000000000");
            assert_eq!(p.environment_scope, "shadow");
        }
        PermissionSnapshot::Missing => panic!("permission not recorded"),
    }
    assert!(matches!(permission_snapshot(&None), PermissionSnapshot::Missing));
}

#[test]
fn risk_status_is_veto_then_pass_then_warning() {
    assert_eq!(risk_status(true, &vec![]), "veto");
    assert_eq!(risk_status(true, &vec!["concentration".to_string()]), "veto");
    assert_eq!(risk_status(false, &vec![]), "pass");
    assert_eq!(risk_status(false, &vec!["concentration".to_string()]), "warning");
}

#[test]
fn demo_portfolio_adds_a_risk_warning() {
    let warnings = risk_warnings(vec!["concentration".to_string()], true);
    assert_eq!(warnings, vec!["concentration".to_string(), "portfolio_demo".to_string()]);
    assert_eq!(risk_status(false, &risk_warnings(vec![], true)), "warning");
    assert_eq!(risk_warnings(vec![], false), Vec::<String>::new());
}
