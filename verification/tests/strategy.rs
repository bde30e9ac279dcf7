use chrono::{TimeZone, Utc};
use stocks::strategy::{
    data_freshness_policy_state, decision_kind, evaluate_strategy, is_bullish_direction,
    validation_plan, AutomationRunSummary, StrategyConfig, StrategyDecisionKind,
    StrategyDefinition, StrategyEvaluationInput, TargetSide, TechnicalFeature, ThesisFeature,
    TradePermission,
};

fn now() -> i64 {
    Utc.with_ymd_and_hms(2026, 6, 30, 14, 0, 0).unwrap().timestamp()
}

const DAY: i64 = 86_400;

fn strings(items: &[&str]) -> Vec<String> {
    items.iter().map(|s| s.to_string()).collect()
}

/// The configuration of the built-in strategy of the family.
fn definition(family: &str) -> StrategyDefinition {
    let config = StrategyConfig {
        max_bar_age_days: Some(5),
        validation_horizon_days: Some(20),
        long_entry_stances: Some(strings(&["actionable", "starter_ok", "constructive"])),
        actionable_thesis_states: if family == "thesis_timing" {
            Some(strings(&["actionable", "position_open"]))
        } else {
            None
        },
    };
    StrategyDefinition {
        strategy_id: family.to_string(),
        strategy_version: "0.1.0".to_string(),
        family: family.to_string(),
        status: "shadow".to_string(),
        config_hash: "sha256:test".to_string(),
        config,
    }
}

fn permission() -> TradePermission {
    TradePermission {
        permission_id: "00000000-0000-0000-0000-000000000000".to_string(),
        symbol: "NVDA".to_string(),
        strategy_id: "technical_timing".to_string(),
        strategy_version: "0.1.0".to_string(),
        status: "approved".to_string(),
        instrument_scope: "equity_long_only".to_string(),
        environment_scope: "shadow".to_string(),
        manual_freeze: false,
        expires_at: Some(now() + 10 * DAY),
    }
}

fn technical(entry_stance: &str, state: &str) -> TechnicalFeature {
    TechnicalFeature {
        as_of: now() - DAY,
        state: state.to_string(),
        entry_stance: entry_stance.to_string(),
    }
}

fn base_input(family: &str) -> StrategyEvaluationInput {
    StrategyEvaluationInput {
        definition: definition(family),
        permission: Some(permission()),
        technical: Some(technical("constructive", "constructive")),
        thesis: None,
        now: now(),
    }
}

fn kind_of(input: &StrategyEvaluationInput, latest_side: Option<TargetSide>, weights_close: bool) -> StrategyDecisionKind {
    let verdict = evaluate_strategy(input);
    decision_kind(verdict.target.map(|t| t.side), latest_side, weights_close)
}

#[test]
fn technical_timing_emits_long_for_constructive_shadow_permission() {
    let input = base_input("technical_timing");
    let verdict = evaluate_strategy(&input);
    let target = verdict.target.clone().unwrap();

    assert_eq!(kind_of(&input, None, false), StrategyDecisionKind::EmitDesired);
    assert_eq!(target.side, TargetSide::Long);
    assert!(target.reason_codes.iter().any(|r| r == "technical_long_constructive"));
    assert!(verdict.blocked_reasons.is_empty());
    let (horizon, churn) = validation_plan(&input.definition.config, None, target.side);
    assert_eq!(horizon, 20);
    assert!(!churn);
}

#[test]
fn unchanged_target_is_no_change_not_a_new_desired_position() {
    // The latest desired position is long at the same 7% weight.
    let input = base_input("technical_timing");
    let verdict = evaluate_strategy(&input);

    assert_eq!(
        kind_of(&input, Some(TargetSide::Long), true),
        StrategyDecisionKind::NoChange
    );
    assert_eq!(verdict.target.as_ref().map(|t| t.side), Some(TargetSide::Long));
    let (_, churn) = validation_plan(&input.definition.config, Some(TargetSide::Long), TargetSide::Long);
    assert!(!churn);
}

#[test]
fn frozen_expired_or_non_shadow_permissions_are_blocked() {
    let mut input = base_input("technical_timing");
    input.permission.as_mut().unwrap().manual_freeze = true;
    assert!(evaluate_strategy(&input).blocked_reasons.iter().any(|r| r == "permission_frozen"));

    let mut input = base_input("technical_timing");
    input.permission.as_mut().unwrap().expires_at = Some(now() - 1);
    assert!(evaluate_strategy(&input).blocked_reasons.iter().any(|r| r == "permission_expired"));

    let mut input = base_input("technical_timing");
    input.permission.as_mut().unwrap().environment_scope = "paper".to_string();
    assert!(evaluate_strategy(&input).blocked_reasons.iter().any(|r| r == "environment_not_shadow"));
}

#[test]
fn stale_or_unknown_technical_state_blocks_changes() {
    let mut input = base_input("technical_timing");
    input.technical.as_mut().unwrap().as_of = now() - 9 * DAY;
    assert!(evaluate_strategy(&input).blocked_reasons.iter().any(|r| r == "technical_stale"));

    let mut input = base_input("technical_timing");
    input.technical = Some(technical("wait_data", "unknown"));
    assert!(evaluate_strategy(&input).blocked_reasons.iter().any(|r| r == "technical_invalid_state"));
}

#[test]
fn thesis_timing_requires_actionable_bullish_thesis_for_long() {
    let mut input = base_input("thesis_timing");
    input.permission.as_mut().unwrap().strategy_id = "thesis_timing".to_string();
    input.thesis = Some(ThesisFeature {
        state: "actionable".to_string(),
        direction: Some("bullish".to_string()),
    });

    let verdict = evaluate_strategy(&input);
    let target = verdict.target.unwrap();
    assert_eq!(kind_of(&input, None, false), StrategyDecisionKind::EmitDesired);
    assert_eq!(target.side, TargetSide::Long);
    assert!(target.reason_codes.iter().any(|r| r == "thesis_actionable_bullish"));

    input.thesis.as_mut().unwrap().state = "armed".to_string();
    let verdict = evaluate_strategy(&input);
    let target = verdict.target.unwrap();
    assert_eq!(kind_of(&input, None, false), StrategyDecisionKind::EmitDesired);
    assert_eq!(target.side, TargetSide::Flat);
    assert!(target.reason_codes.iter().any(|r| r == "thesis_not_actionable"));
}

#[test]
fn missing_permission_blocks_strategy_evaluation() {
    let mut input = base_input("technical_timing");
    input.permission = None;

    let verdict = evaluate_strategy(&input);

    assert_eq!(kind_of(&input, None, false), StrategyDecisionKind::Blocked);
    assert!(verdict.blocked_reasons.iter().any(|r| r == "permission_missing"));
}

#[test]
fn missing_technical_features_become_missing_data_policy_state() {
    let mut input = base_input("technical_timing");
    input.technical = None;

    let (status, stale) = data_freshness_policy_state(&input);

    assert_eq!(status, "missing");
    assert!(stale);
}

#[test]
fn fresh_and_stale_technical_data() {
    let input = base_input("technical_timing");
    assert_eq!(data_freshness_policy_state(&input), ("fresh", false));
    let mut input = base_input("technical_timing");
    input.technical.as_mut().unwrap().as_of = now() - 5 * DAY - 1;
    assert_eq!(data_freshness_policy_state(&input), ("stale", true));
}

#[test]
fn flat_stances_and_short_only_scopes() {
    let mut input = base_input("technical_timing");
    input.technical = Some(technical("avoid_chase", "extended"));
    let target = evaluate_strategy(&input).target.unwrap();
    assert_eq!(target.side, TargetSide::Flat);
    assert_eq!(target.reason_codes, vec!["technical_flat_avoid_chase".to_string()]);
    assert_eq!(target.rationale, "avoid_chase entry stance does not permit shadow entry.");

    let mut input = base_input("technical_timing");
    input.permission.as_mut().unwrap().instrument_scope = "equity_short_only".to_string();
    let verdict = evaluate_strategy(&input);
    assert!(verdict.target.is_none());
    assert_eq!(verdict.blocked_reasons, vec!["instrument_scope_blocks_long".to_string()]);
}

#[test]
fn unknown_family_and_mismatched_permission() {
    let mut input = base_input("momentum");
    input.permission.as_mut().unwrap().strategy_id = "momentum".to_string();
    assert_eq!(
        evaluate_strategy(&input).blocked_reasons,
        vec!["strategy_family_unsupported".to_string()]
    );
    let input = base_input("thesis_timing");
    assert!(evaluate_strategy(&input)
        .blocked_reasons
        .iter()
        .any(|r| r == "permission_strategy_mismatch"));
}

#[test]
fn thesis_direction_and_timing() {
    let mut input = base_input("thesis_timing");
    input.permission.as_mut().unwrap().strategy_id = "thesis_timing".to_string();
    input.thesis = Some(ThesisFeature { state: "position_open".to_string(), direction: Some("Down".to_string()) });
    assert_eq!(
        evaluate_strategy(&input).target.unwrap().reason_codes,
        vec!["thesis_not_bullish".to_string()]
    );
    input.thesis = Some(ThesisFeature { state: "actionable".to_string(), direction: Some("UP".to_string()) });
    input.technical = Some(technical("wait_breakout", "basing"));
    assert_eq!(
        evaluate_strategy(&input).target.unwrap().reason_codes,
        vec!["thesis_waiting_for_timing".to_string()]
    );
    input.thesis = None;
    assert_eq!(
        evaluate_strategy(&input).target.unwrap().reason_codes,
        vec!["thesis_missing_flat".to_string()]
    );
    assert!(is_bullish_direction("Positive"));
    assert!(!is_bullish_direction("sideways"));
}

#[test]
fn side_names_round_trip() {
    for side in [TargetSide::Flat, TargetSide::Long, TargetSide::Short] {
        assert_eq!(TargetSide::try_from(side.as_str()), Ok(side));
    }
    assert_eq!(TargetSide::try_from("up"), Err("unsupported target side up".to_string()));
}

#[test]
fn run_summary_counts_each_outcome() {
    let mut summary = AutomationRunSummary::new();
    summary.record(true, false, StrategyDecisionKind::EmitDesired);
    summary.record(true, false, StrategyDecisionKind::NoChange);
    summary.record(false, true, StrategyDecisionKind::EmitDesired);
    summary.record(true, false, StrategyDecisionKind::Blocked);
    assert_eq!(summary.evaluated, 4);
    assert_eq!(summary.emitted, 1);
    assert_eq!(summary.unchanged, 1);
    assert_eq!(summary.blocked, 2);
    assert_eq!(summary.no_features, 1);
}

#[test]
fn validation_horizon_and_churn() {
    let mut config = definition("technical_timing").config;
    config.validation_horizon_days = Some(0);
    assert_eq!(validation_plan(&config, Some(TargetSide::Long), TargetSide::Flat), (1, true));
    config.validation_horizon_days = None;
    assert_eq!(validation_plan(&config, None, TargetSide::Long), (20, false));
}
