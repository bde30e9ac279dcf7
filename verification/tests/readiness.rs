use chrono::{TimeZone, Utc};
use stocks::readiness::{
    environment_rank, evaluate_readiness, manual_stage_change, next_stage, AutomationStage,
    MetricCheck, MetricChecks, PromotionApproval, ReadinessInput, ReadinessStatus,
};

fn now() -> i64 {
    Utc.with_ymd_and_hms(2026, 6, 30, 15, 0, 0).unwrap().timestamp()
}

const DAY: i64 = 86_400;

/// The checks of a strategy whose metrics all meet their thresholds, with no
/// paper fills or slippage measured yet.
fn passing_checks() -> MetricChecks {
    MetricChecks {
        signal_quality_rate: MetricCheck::Within,
        mean_forward_return_pct: MetricCheck::Within,
        baseline_excess_return_pct: MetricCheck::Within,
        churn_rate: MetricCheck::Within,
        proof_pass_rate: MetricCheck::Within,
        incident_rate: MetricCheck::Within,
        mean_max_drawdown_pct: MetricCheck::Within,
        paper_fill_quality_rate: MetricCheck::Missing,
        mean_slippage_bps: MetricCheck::Missing,
    }
}

fn approval(from_stage: AutomationStage, to_stage: AutomationStage) -> PromotionApproval {
    PromotionApproval {
        from_stage,
        to_stage,
        status: "approved".to_string(),
        approved_at: now() - DAY,
        expires_at: Some(now() + 7 * DAY),
    }
}

fn input(stage: AutomationStage, checks: MetricChecks, approval: Option<PromotionApproval>) -> ReadinessInput {
    ReadinessInput {
        current_stage: stage,
        directional_outcomes_scored: 32,
        open_critical_incidents: 0,
        paper_orders_total: 0,
        min_directional_outcomes: 20,
        min_paper_orders_for_live: 5,
        checks,
        approval,
        now: now(),
    }
}

#[test]
fn promotion_pass_requires_scored_edge_and_operator_approval() {
    let input = input(
        AutomationStage::Shadow,
        passing_checks(),
        Some(approval(AutomationStage::Shadow, AutomationStage::Paper)),
    );

    let decision = evaluate_readiness(&input);

    assert_eq!(decision.status, ReadinessStatus::Ready);
    assert_eq!(decision.target_stage, Some(AutomationStage::Paper));
    assert!(decision.blockers.is_empty());
    assert!(decision.approval_valid);
    assert!(!decision.freeze_live_permissions);
}

#[test]
fn breached_metric_checks_list_their_blockers() {
    let mut checks = passing_checks();
    checks.signal_quality_rate = MetricCheck::Breached;
    checks.mean_forward_return_pct = MetricCheck::Breached;
    checks.mean_max_drawdown_pct = MetricCheck::Breached;
    checks.churn_rate = MetricCheck::Breached;
    checks.proof_pass_rate = MetricCheck::Breached;
    checks.incident_rate = MetricCheck::Breached;
    checks.baseline_excess_return_pct = MetricCheck::Breached;
    let mut input = input(AutomationStage::Shadow, checks, None);
    input.directional_outcomes_scored = 4;

    let decision = evaluate_readiness(&input);

    assert_eq!(decision.status, ReadinessStatus::Blocked);
    assert!(decision.blockers.contains(&"insufficient_scored_outcomes".to_string()));
    assert!(decision.blockers.contains(&"signal_quality_below_threshold".to_string()));
    assert!(decision.blockers.contains(&"mean_drawdown_too_deep".to_string()));
    assert!(decision.blockers.contains(&"proof_pass_rate_below_threshold".to_string()));
    assert!(decision.blockers.contains(&"approval_missing".to_string()));
}

#[test]
fn expired_operator_approval_blocks_otherwise_ready_promotion() {
    let mut approval = approval(AutomationStage::Shadow, AutomationStage::Paper);
    approval.expires_at = Some(now() - 1);
    let input = input(AutomationStage::Shadow, passing_checks(), Some(approval));

    let decision = evaluate_readiness(&input);

    assert_eq!(decision.status, ReadinessStatus::Blocked);
    assert!(decision.blockers.contains(&"approval_expired".to_string()));
    assert!(!decision.approval_valid);
}

#[test]
fn breached_incident_rate_freezes_live_capable_permissions() {
    let mut checks = passing_checks();
    checks.paper_fill_quality_rate = MetricCheck::Within;
    checks.incident_rate = MetricCheck::Breached;
    let mut input = input(
        AutomationStage::CanaryLive,
        checks,
        Some(approval(AutomationStage::CanaryLive, AutomationStage::ExpandedLive)),
    );
    input.paper_orders_total = 18;
    input.open_critical_incidents = 1;

    let decision = evaluate_readiness(&input);

    assert_eq!(decision.status, ReadinessStatus::Blocked);
    assert!(decision.blockers.contains(&"incident_rate_high".to_string()));
    assert!(decision.blockers.contains(&"open_critical_incidents".to_string()));
    assert!(decision.freeze_live_permissions);
}

#[test]
fn manual_demotion_is_allowed_without_readiness_but_manual_promotion_is_not() {
    let demotion = manual_stage_change(AutomationStage::ExpandedLive, AutomationStage::Paper);
    assert!(demotion.allowed);
    assert_eq!(demotion.event_kind, "demoted");

    let promotion = manual_stage_change(AutomationStage::Paper, AutomationStage::ExpandedLive);
    assert!(!promotion.allowed);
    assert_eq!(promotion.reason, Some("promotion_requires_readiness_gate"));
}

#[test]
fn manual_changes_freeze_retire_and_refuse_the_same_stage() {
    let freeze = manual_stage_change(AutomationStage::CanaryLive, AutomationStage::Frozen);
    assert!(freeze.allowed);
    assert_eq!(freeze.event_kind, "frozen");
    assert_eq!(freeze.reason, None);

    let retire = manual_stage_change(AutomationStage::Shadow, AutomationStage::Retired);
    assert!(retire.allowed);
    assert_eq!(retire.event_kind, "retired");

    let same = manual_stage_change(AutomationStage::Paper, AutomationStage::Paper);
    assert!(!same.allowed);
    assert_eq!(same.reason, Some("same_stage"));

    let thaw = manual_stage_change(AutomationStage::Frozen, AutomationStage::Paper);
    assert!(!thaw.allowed);
    assert_eq!(thaw.reason, Some("manual_change_not_allowed"));
}

#[test]
fn stage_names_round_trip_and_unknown_names_are_refused() {
    for stage in [
        AutomationStage::Draft,
        AutomationStage::Shadow,
        AutomationStage::Paper,
        AutomationStage::CanaryLive,
        AutomationStage::ExpandedLive,
        AutomationStage::Frozen,
        AutomationStage::Retired,
    ] {
        assert_eq!(AutomationStage::try_from(stage.as_str()), Ok(stage));
    }
    assert!(AutomationStage::try_from("live").is_err());
}

#[test]
fn stage_ladder_and_environment_scopes() {
    assert_eq!(next_stage(AutomationStage::Draft), Some(AutomationStage::Shadow));
    assert_eq!(next_stage(AutomationStage::CanaryLive), Some(AutomationStage::ExpandedLive));
    assert_eq!(next_stage(AutomationStage::ExpandedLive), None);
    assert_eq!(next_stage(AutomationStage::Frozen), None);
    assert_eq!(environment_rank("paper"), Some(2));
    assert_eq!(environment_rank("prod"), None);
    assert!(AutomationStage::Paper.allows_environment_scope("shadow"));
    assert!(!AutomationStage::Paper.allows_environment_scope("canary_live"));
    assert!(!AutomationStage::Draft.allows_environment_scope("shadow"));
    assert!(AutomationStage::ExpandedLive.is_live_capable());
    assert!(!AutomationStage::Paper.is_live_capable());
    assert!(AutomationStage::Shadow.is_runnable());
    assert!(!AutomationStage::Retired.is_runnable());
    assert_eq!(ReadinessStatus::Ready.as_str(), "ready");
}

#[test]
fn top_stage_warns_and_needs_no_approval() {
    let decision = evaluate_readiness(&input(AutomationStage::ExpandedLive, passing_checks(), None));
    assert_eq!(decision.target_stage, None);
    assert_eq!(decision.warnings, vec!["no_higher_stage".to_string()]);
    assert!(!decision.approval_required);
    assert!(!decision.approval_valid);
    assert_eq!(decision.status, ReadinessStatus::Blocked);
}

#[test]
fn mismatched_or_inactive_approval_blocks() {
    let wrong = input(
        AutomationStage::Shadow,
        passing_checks(),
        Some(approval(AutomationStage::Paper, AutomationStage::CanaryLive)),
    );
    assert!(evaluate_readiness(&wrong).blockers.contains(&"approval_stage_mismatch".to_string()));

    let mut pending = approval(AutomationStage::Shadow, AutomationStage::Paper);
    pending.status = "pending".to_string();
    let pending = input(AutomationStage::Shadow, passing_checks(), Some(pending));
    assert!(evaluate_readiness(&pending).blockers.contains(&"approval_not_active".to_string()));
}

#[test]
fn live_targets_need_paper_orders_and_fill_quality() {
    let decision = evaluate_readiness(&input(
        AutomationStage::Paper,
        passing_checks(),
        Some(approval(AutomationStage::Paper, AutomationStage::CanaryLive)),
    ));
    assert_eq!(
        decision.blockers,
        vec![
            "insufficient_paper_orders".to_string(),
            "paper_fill_quality_below_threshold".to_string()
        ]
    );
}
