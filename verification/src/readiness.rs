//! Strategy lifecycle stages and the readiness gate that decides whether a
//! strategy may be promoted to the next stage.
//!
//! Metric thresholds are compared where the metrics live; this gate takes the
//! outcome of each comparison as a [`MetricCheck`] and decides the blockers,
//! the approval verdict, the live-permission freeze and the status.

use vstd::prelude::*;
use crate::order::{sort_dedup, sorted_enum, views, reason_if, push_when};
use crate::text::{str_eq, owned, append};

verus! {

#[derive(Clone, Copy, Debug, PartialEq, Eq, Structural)]
pub enum AutomationStage {
    Draft,
    Shadow,
    Paper,
    CanaryLive,
    ExpandedLive,
    Frozen,
    Retired,
}

pub open spec fn stage_text(s: AutomationStage) -> Seq<char> {
    match s {
        AutomationStage::Draft => "draft"@,
        AutomationStage::Shadow => "shadow"@,
        AutomationStage::Paper => "paper"@,
        AutomationStage::CanaryLive => "canary_live"@,
        AutomationStage::ExpandedLive => "expanded_live"@,
        AutomationStage::Frozen => "frozen"@,
        AutomationStage::Retired => "retired"@,
    }
}

/// Position on the promotion ladder; frozen and retired are off the ladder.
pub open spec fn stage_rank(s: AutomationStage) -> Option<u8> {
    match s {
        AutomationStage::Draft => Some(0),
        AutomationStage::Shadow => Some(1),
        AutomationStage::Paper => Some(2),
        AutomationStage::CanaryLive => Some(3),
        AutomationStage::ExpandedLive => Some(4),
        _ => None,
    }
}

pub open spec fn live_capable(s: AutomationStage) -> bool {
    s == AutomationStage::CanaryLive || s == AutomationStage::ExpandedLive
}

pub open spec fn runnable(s: AutomationStage) -> bool {
    s == AutomationStage::Shadow || s == AutomationStage::Paper || live_capable(s)
}

pub open spec fn env_rank(scope: Seq<char>) -> Option<u8> {
    if scope == "shadow"@ {
        Some(1)
    } else if scope == "paper"@ {
        Some(2)
    } else if scope == "canary_live"@ {
        Some(3)
    } else if scope == "expanded_live"@ {
        Some(4)
    } else {
        None
    }
}

/// A runnable stage may run in any environment at or below its own rank.
pub open spec fn allows_scope(s: AutomationStage, scope: Seq<char>) -> bool {
    match (stage_rank(s), env_rank(scope)) {
        (Some(sr), Some(er)) => runnable(s) && er <= sr,
        _ => false,
    }
}

pub open spec fn next_of(s: AutomationStage) -> Option<AutomationStage> {
    match s {
        AutomationStage::Draft => Some(AutomationStage::Shadow),
        AutomationStage::Shadow => Some(AutomationStage::Paper),
        AutomationStage::Paper => Some(AutomationStage::CanaryLive),
        AutomationStage::CanaryLive => Some(AutomationStage::ExpandedLive),
        _ => None,
    }
}

pub open spec fn parse_stage(v: Seq<char>) -> Option<AutomationStage> {
    if v == "draft"@ {
        Some(AutomationStage::Draft)
    } else if v == "shadow"@ {
        Some(AutomationStage::Shadow)
    } else if v == "paper"@ {
        Some(AutomationStage::Paper)
    } else if v == "canary_live"@ {
        Some(AutomationStage::CanaryLive)
    } else if v == "expanded_live"@ {
        Some(AutomationStage::ExpandedLive)
    } else if v == "frozen"@ {
        Some(AutomationStage::Frozen)
    } else if v == "retired"@ {
        Some(AutomationStage::Retired)
    } else {
        None
    }
}

impl AutomationStage {
    pub fn as_str(self) -> (r: &'static str)
        ensures
            r@ == stage_text(self),
    {
        match self {
            AutomationStage::Draft => "draft",
            AutomationStage::Shadow => "shadow",
            AutomationStage::Paper => "paper",
            AutomationStage::CanaryLive => "canary_live",
            AutomationStage::ExpandedLive => "expanded_live",
            AutomationStage::Frozen => "frozen",
            AutomationStage::Retired => "retired",
        }
    }

    pub fn rank(self) -> (r: Option<u8>)
        ensures
            r == stage_rank(self),
    {
        match self {
            AutomationStage::Draft => Some(0),
            AutomationStage::Shadow => Some(1),
            AutomationStage::Paper => Some(2),
            AutomationStage::CanaryLive => Some(3),
            AutomationStage::ExpandedLive => Some(4),
            AutomationStage::Frozen | AutomationStage::Retired => None,
        }
    }

    pub fn is_live_capable(self) -> (r: bool)
        ensures
            r == live_capable(self),
    {
        matches!(self, AutomationStage::CanaryLive | AutomationStage::ExpandedLive)
    }

    pub fn is_runnable(self) -> (r: bool)
        ensures
            r == runnable(self),
    {
        matches!(
            self,
            AutomationStage::Shadow | AutomationStage::Paper | AutomationStage::CanaryLive
                | AutomationStage::ExpandedLive
        )
    }

    pub fn allows_environment_scope(self, environment_scope: &str) -> (r: bool)
        ensures
            r == allows_scope(self, environment_scope@),
    {
        let stage_rank = match self.rank() {
            Some(r) => r,
            None => return false,
        };
        let env = match environment_rank(environment_scope) {
            Some(r) => r,
            None => return false,
        };
        self.is_runnable() && env <= stage_rank
    }

    /// Parses a stage name; any other text is refused with a message that
    /// names it.
    pub fn try_from(value: &str) -> (r: Result<AutomationStage, String>)
        ensures
            r matches Ok(s) ==> parse_stage(value@) == Some(s),
            r matches Err(e) ==> parse_stage(value@) is None && e@
                == "unsupported automation stage "@ + value@,
    {
        if str_eq(value, "draft") {
            Ok(AutomationStage::Draft)
        } else if str_eq(value, "shadow") {
            Ok(AutomationStage::Shadow)
        } else if str_eq(value, "paper") {
            Ok(AutomationStage::Paper)
        } else if str_eq(value, "canary_live") {
            Ok(AutomationStage::CanaryLive)
        } else if str_eq(value, "expanded_live") {
            Ok(AutomationStage::ExpandedLive)
        } else if str_eq(value, "frozen") {
            Ok(AutomationStage::Frozen)
        } else if str_eq(value, "retired") {
            Ok(AutomationStage::Retired)
        } else {
            let mut e = owned("unsupported automation stage ");
            append(&mut e, value);
            Err(e)
        }
    }
}

/// The stage a promotion leads to, if any.
pub fn next_stage(stage: AutomationStage) -> (r: Option<AutomationStage>)
    ensures
        r == next_of(stage),
{
    match stage {
        AutomationStage::Draft => Some(AutomationStage::Shadow),
        AutomationStage::Shadow => Some(AutomationStage::Paper),
        AutomationStage::Paper => Some(AutomationStage::CanaryLive),
        AutomationStage::CanaryLive => Some(AutomationStage::ExpandedLive),
        AutomationStage::ExpandedLive | AutomationStage::Frozen | AutomationStage::Retired => None,
    }
}

/// Rank of an environment scope name.
pub fn environment_rank(environment_scope: &str) -> (r: Option<u8>)
    ensures
        r == env_rank(environment_scope@),
{
    if str_eq(environment_scope, "shadow") {
        Some(1)
    } else if str_eq(environment_scope, "paper") {
        Some(2)
    } else if str_eq(environment_scope, "canary_live") {
        Some(3)
    } else if str_eq(environment_scope, "expanded_live") {
        Some(4)
    } else {
        None
    }
}

#[derive(Clone, Copy, Debug, PartialEq, Eq, Structural)]
pub enum ReadinessStatus {
    Ready,
    Blocked,
}

impl ReadinessStatus {
    pub fn as_str(self) -> (r: &'static str)
        ensures
            r@ == (match self {
                ReadinessStatus::Ready => "ready"@,
                ReadinessStatus::Blocked => "blocked"@,
            }),
    {
        match self {
            ReadinessStatus::Ready => "ready",
            ReadinessStatus::Blocked => "blocked",
        }
    }
}

// ------------------------------------------------------------------ manual stage changes

/// Whether an operator may move a strategy between two stages by hand.
#[derive(Clone, Debug)]
pub struct ManualStageChange {
    pub allowed: bool,
    pub event_kind: &'static str,
    pub reason: Option<&'static str>,
}

/// `(allowed, event kind, reason)` of a manual move.
pub open spec fn manual_change(from: AutomationStage, to: AutomationStage) -> (bool, Seq<char>, Option<Seq<char>>) {
    if from == to {
        (false, "blocked"@, Some("same_stage"@))
    } else if to == AutomationStage::Frozen {
        (true, "frozen"@, None)
    } else if to == AutomationStage::Retired {
        (true, "retired"@, None)
    } else {
        match (stage_rank(from), stage_rank(to)) {
            (Some(f), Some(t)) => {
                if t < f {
                    (true, "demoted"@, None)
                } else if t > f {
                    (false, "blocked"@, Some("promotion_requires_readiness_gate"@))
                } else {
                    (false, "blocked"@, Some("manual_change_not_allowed"@))
                }
            },
            _ => (false, "blocked"@, Some("manual_change_not_allowed"@)),
        }
    }
}

pub open spec fn opt_view(o: Option<&'static str>) -> Option<Seq<char>> {
    match o {
        Some(s) => Some(s@),
        None => None,
    }
}

/// Freezing, retiring and demoting are always allowed by hand; promotion must
/// go through the readiness gate.
pub fn manual_stage_change(from: AutomationStage, to: AutomationStage) -> (r: ManualStageChange)
    ensures
        (r.allowed, r.event_kind@, opt_view(r.reason)) == manual_change(from, to),
{
    if from == to {
        return ManualStageChange { allowed: false, event_kind: "blocked", reason: Some("same_stage") };
    }
    if to == AutomationStage::Frozen {
        return ManualStageChange { allowed: true, event_kind: "frozen", reason: None };
    }
    if to == AutomationStage::Retired {
        return ManualStageChange { allowed: true, event_kind: "retired", reason: None };
    }
    match (from.rank(), to.rank()) {
        (Some(f), Some(t)) => {
            if t < f {
                ManualStageChange { allowed: true, event_kind: "demoted", reason: None }
            } else if t > f {
                ManualStageChange {
                    allowed: false,
                    event_kind: "blocked",
                    reason: Some("promotion_requires_readiness_gate"),
                }
            } else {
                ManualStageChange {
                    allowed: false,
                    event_kind: "blocked",
                    reason: Some("manual_change_not_allowed"),
                }
            }
        },
        _ => ManualStageChange {
            allowed: false,
            event_kind: "blocked",
            reason: Some("manual_change_not_allowed"),
        },
    }
}

// ------------------------------------------------------------------ readiness gate

/// The outcome of comparing an optional metric with its threshold.
#[derive(Clone, Copy, Debug, PartialEq, Eq, Structural)]
pub enum MetricCheck {
    /// The metric has no value.
    Missing,
    /// The metric meets its threshold.
    Within,
    /// The metric is on the wrong side of its threshold.
    Breached,
}

/// Threshold outcomes of the rate and return metrics.
#[derive(Clone, Copy, Debug)]
pub struct MetricChecks {
    pub signal_quality_rate: MetricCheck,
    pub mean_forward_return_pct: MetricCheck,
    pub baseline_excess_return_pct: MetricCheck,
    pub churn_rate: MetricCheck,
    pub proof_pass_rate: MetricCheck,
    pub incident_rate: MetricCheck,
    pub mean_max_drawdown_pct: MetricCheck,
    pub paper_fill_quality_rate: MetricCheck,
    pub mean_slippage_bps: MetricCheck,
}

/// An operator's approval of one promotion; times are seconds since the epoch.
#[derive(Clone, Debug)]
pub struct PromotionApproval {
    pub from_stage: AutomationStage,
    pub to_stage: AutomationStage,
    pub status: String,
    pub approved_at: i64,
    pub expires_at: Option<i64>,
}

#[derive(Clone, Debug)]
pub struct ReadinessInput {
    pub current_stage: AutomationStage,
    pub directional_outcomes_scored: i64,
    pub open_critical_incidents: i64,
    pub paper_orders_total: i64,
    pub min_directional_outcomes: i64,
    pub min_paper_orders_for_live: i64,
    pub checks: MetricChecks,
    pub approval: Option<PromotionApproval>,
    pub now: i64,
}

#[derive(Clone, Debug)]
pub struct ReadinessDecision {
    pub current_stage: AutomationStage,
    pub target_stage: Option<AutomationStage>,
    pub status: ReadinessStatus,
    pub blockers: Vec<String>,
    pub warnings: Vec<String>,
    pub approval_required: bool,
    pub approval_valid: bool,
    pub freeze_live_permissions: bool,
}

pub open spec fn expired(a: PromotionApproval, now: i64) -> bool {
    match a.expires_at {
        Some(t) => t <= now,
        None => false,
    }
}

/// The blocker an approval raises for the promotion to `target`, if any.
pub open spec fn approval_blocker(inp: ReadinessInput) -> Option<Seq<char>> {
    match (next_of(inp.current_stage), inp.approval) {
        (Some(t), Some(a)) => {
            if a.from_stage != inp.current_stage || a.to_stage != t {
                Some("approval_stage_mismatch"@)
            } else if a.status@ != "approved"@ {
                Some("approval_not_active"@)
            } else if expired(a, inp.now) {
                Some("approval_expired"@)
            } else {
                None
            }
        },
        (Some(_), None) => Some("approval_missing"@),
        _ => None,
    }
}

pub open spec fn approval_ok(inp: ReadinessInput) -> bool {
    next_of(inp.current_stage) is Some && inp.approval is Some && approval_blocker(inp) is None
}

pub open spec fn target_live(inp: ReadinessInput) -> bool {
    match next_of(inp.current_stage) {
        Some(t) => live_capable(t),
        None => false,
    }
}

/// Blockers raised by the stage, the counts and the metric checks.
pub open spec fn metric_blockers(inp: ReadinessInput) -> Set<Seq<char>> {
    let c = inp.checks;
    reason_if(inp.current_stage == AutomationStage::Frozen, "strategy_frozen"@)
        + reason_if(inp.current_stage == AutomationStage::Retired, "strategy_retired"@)
        + reason_if(inp.directional_outcomes_scored < inp.min_directional_outcomes, "insufficient_scored_outcomes"@)
        + reason_if(c.signal_quality_rate != MetricCheck::Within, "signal_quality_below_threshold"@)
        + reason_if(c.mean_forward_return_pct != MetricCheck::Within, "mean_forward_return_below_threshold"@)
        + reason_if(c.baseline_excess_return_pct != MetricCheck::Within, "baseline_underperformed"@)
        + reason_if(c.churn_rate != MetricCheck::Within, "churn_rate_high"@)
        + reason_if(c.proof_pass_rate != MetricCheck::Within, "proof_pass_rate_below_threshold"@)
        + reason_if(c.incident_rate != MetricCheck::Within, "incident_rate_high"@)
        + reason_if(inp.open_critical_incidents > 0, "open_critical_incidents"@)
        + reason_if(c.mean_max_drawdown_pct == MetricCheck::Breached, "mean_drawdown_too_deep"@)
        + reason_if(c.mean_max_drawdown_pct == MetricCheck::Missing, "mean_drawdown_missing"@)
        + reason_if(target_live(inp) && inp.paper_orders_total < inp.min_paper_orders_for_live, "insufficient_paper_orders"@)
        + reason_if(target_live(inp) && c.paper_fill_quality_rate != MetricCheck::Within, "paper_fill_quality_below_threshold"@)
        + reason_if(target_live(inp) && c.mean_slippage_bps == MetricCheck::Breached, "slippage_too_high"@)
}

/// Every blocker that applies to the input.
pub open spec fn readiness_blockers(inp: ReadinessInput) -> Set<Seq<char>> {
    metric_blockers(inp) + match approval_blocker(inp) {
        Some(b) => set![b],
        None => Set::empty(),
    }
}

/// Blockers that freeze the live permissions of a live strategy.
pub open spec fn freezes(inp: ReadinessInput) -> bool {
    live_capable(inp.current_stage) && (inp.checks.incident_rate != MetricCheck::Within
        || inp.open_critical_incidents > 0 || inp.checks.proof_pass_rate != MetricCheck::Within)
}

fn collect_metric_blockers(input: &ReadinessInput) -> (blockers: Vec<String>)
    ensures
        views(blockers@).to_set() == metric_blockers(*input),
{
    let c = input.checks;
    let mut blockers: Vec<String> = Vec::new();
    assert(views(blockers@).to_set() =~= Set::empty());
    push_when(&mut blockers, input.current_stage == AutomationStage::Frozen, "strategy_frozen");
    push_when(&mut blockers, input.current_stage == AutomationStage::Retired, "strategy_retired");
    push_when(&mut blockers, input.directional_outcomes_scored < input.min_directional_outcomes, "insufficient_scored_outcomes");
    push_when(&mut blockers, c.signal_quality_rate != MetricCheck::Within, "signal_quality_below_threshold");
    push_when(&mut blockers, c.mean_forward_return_pct != MetricCheck::Within, "mean_forward_return_below_threshold");
    push_when(&mut blockers, c.baseline_excess_return_pct != MetricCheck::Within, "baseline_underperformed");
    push_when(&mut blockers, c.churn_rate != MetricCheck::Within, "churn_rate_high");
    push_when(&mut blockers, c.proof_pass_rate != MetricCheck::Within, "proof_pass_rate_below_threshold");
    push_when(&mut blockers, c.incident_rate != MetricCheck::Within, "incident_rate_high");
    push_when(&mut blockers, input.open_critical_incidents > 0, "open_critical_incidents");
    push_when(&mut blockers, c.mean_max_drawdown_pct == MetricCheck::Breached, "mean_drawdown_too_deep");
    push_when(&mut blockers, c.mean_max_drawdown_pct == MetricCheck::Missing, "mean_drawdown_missing");
    let target_is_live = match next_stage(input.current_stage) {
        Some(t) => t.is_live_capable(),
        None => false,
    };
    push_when(&mut blockers, target_is_live && input.paper_orders_total < input.min_paper_orders_for_live, "insufficient_paper_orders");
    push_when(&mut blockers, target_is_live && c.paper_fill_quality_rate != MetricCheck::Within, "paper_fill_quality_below_threshold");
    push_when(&mut blockers, target_is_live && c.mean_slippage_bps == MetricCheck::Breached, "slippage_too_high");
    blockers
}

/// The promotion gate: the next stage, the sorted blockers, whether the
/// operator's approval is valid, whether live permissions must be frozen, and
/// the status (ready only with no blocker and a valid approval).
pub fn evaluate_readiness(input: &ReadinessInput) -> (r: ReadinessDecision)
    ensures
        r.current_stage == input.current_stage,
        r.target_stage == next_of(input.current_stage),
        views(r.blockers@) == sorted_enum(readiness_blockers(*input)),
        views(r.warnings@) == (if next_of(input.current_stage) is None {
            seq!["no_higher_stage"@]
        } else {
            Seq::empty()
        }),
        r.approval_required == (next_of(input.current_stage) is Some),
        r.approval_valid == approval_ok(*input),
        r.freeze_live_permissions == freezes(*input),
        r.status == (if readiness_blockers(*input).is_empty() && approval_ok(*input) {
            ReadinessStatus::Ready
        } else {
            ReadinessStatus::Blocked
        }),
{
    let target_stage = next_stage(input.current_stage);
    let c = input.checks;
    let mut warnings: Vec<String> = Vec::new();
    let approval_required = target_stage.is_some();
    if target_stage.is_none() {
        warnings.push(owned("no_higher_stage"));
    }
    let mut blockers = collect_metric_blockers(input);
    let ghost pre = views(blockers@);
    let approval_valid = match (target_stage, &input.approval) {
        (Some(target), Some(approval)) => {
            if approval.from_stage != input.current_stage || approval.to_stage != target {
                blockers.push(owned("approval_stage_mismatch"));
                false
            } else if !str_eq(approval.status.as_str(), "approved") {
                blockers.push(owned("approval_not_active"));
                false
            } else if match approval.expires_at {
                Some(t) => t <= input.now,
                None => false,
            } {
                blockers.push(owned("approval_expired"));
                false
            } else {
                true
            }
        },
        (Some(_), None) => {
            blockers.push(owned("approval_missing"));
            false
        },
        _ => false,
    };
    proof {
        let b = views(blockers@);
        match approval_blocker(*input) {
            Some(x) => {
                assert(b =~= pre.push(x));
                pre.lemma_push_to_set_commute(x);
                assert(b.to_set() =~= pre.to_set() + set![x]);
            },
            None => {
                assert(b == pre);
                assert(b.to_set() =~= pre.to_set() + Set::empty());
            },
        }
        assert(b.to_set() =~= readiness_blockers(*input));
    }
    let blockers = sort_dedup(blockers);
    let freeze_live_permissions = input.current_stage.is_live_capable() && (c.incident_rate
        != MetricCheck::Within || input.open_critical_incidents > 0 || c.proof_pass_rate
        != MetricCheck::Within);
    let status = if blockers.len() == 0 && approval_valid {
        ReadinessStatus::Ready
    } else {
        ReadinessStatus::Blocked
    };
    assert(views(warnings@) =~= (if next_of(input.current_stage) is None {
        seq!["no_higher_stage"@]
    } else {
        Seq::empty()
    }));
    ReadinessDecision {
        current_stage: input.current_stage,
        target_stage,
        status,
        blockers,
        warnings,
        approval_required,
        approval_valid,
        freeze_live_permissions,
    }
}

// ------------------------------------------------------------------ laws

/// Stage `to` sits above stage `from` on the promotion ladder.
pub open spec fn promotes(from: AutomationStage, to: AutomationStage) -> bool {
    match (stage_rank(from), stage_rank(to)) {
        (Some(f), Some(t)) => t > f,
        _ => false,
    }
}

/// Stage `to` sits below stage `from` on the promotion ladder.
pub open spec fn demotes(from: AutomationStage, to: AutomationStage) -> bool {
    match (stage_rank(from), stage_rank(to)) {
        (Some(f), Some(t)) => t < f,
        _ => false,
    }
}

/// An operator may demote a strategy, freeze it or retire it by hand, but
/// never promote it: promotion goes through the readiness gate.
pub proof fn law_manual_demotion_allowed_promotion_blocked(from: AutomationStage, to: AutomationStage)
    ensures
        demotes(from, to) ==> manual_change(from, to).0 && manual_change(from, to).1 == "demoted"@,
        promotes(from, to) ==> !manual_change(from, to).0 && manual_change(from, to).2 == Some(
            "promotion_requires_readiness_gate"@,
        ),
        from != to && (to == AutomationStage::Frozen || to == AutomationStage::Retired)
            ==> manual_change(from, to).0,
        manual_change(from, to).0 ==> !promotes(from, to),
{
}

/// Each stage's name reads back as that stage.
pub proof fn law_stage_name_round_trip(s: AutomationStage)
    ensures
        parse_stage(stage_text(s)) == Some(s),
{
    reveal_strlit("draft");
    reveal_strlit("shadow");
    reveal_strlit("paper");
    reveal_strlit("canary_live");
    reveal_strlit("expanded_live");
    reveal_strlit("frozen");
    reveal_strlit("retired");
    assert("draft"@[0] == 'd' && "shadow"@[0] == 's' && "paper"@[0] == 'p' && "canary_live"@[0] == 'c');
    assert("expanded_live"@[0] == 'e' && "frozen"@[0] == 'f' && "retired"@[0] == 'r');
}

/// Promotion climbs the ladder one rung at a time.
pub proof fn law_next_stage_one_rung_up(s: AutomationStage)
    ensures
        next_of(s) matches Some(t) ==> stage_rank(s) matches Some(f) && stage_rank(t) == Some((f + 1) as u8),
        next_of(s) is None <==> (s == AutomationStage::ExpandedLive || stage_rank(s) is None),
{
}

proof fn lemma_readiness_blocked_by(inp: ReadinessInput, x: Seq<char>)
    requires
        readiness_blockers(inp).contains(x),
    ensures
        !readiness_blockers(inp).is_empty(),
{
    assert(!Set::<Seq<char>>::empty().contains(x));
}

/// Each failed check blocks the promotion with its own reason, whatever the
/// target stage (the paper-trading checks only for a live-capable target):
/// the blockers hold the reason and the status cannot be ready.
pub proof fn law_each_failed_check_blocks(inp: ReadinessInput)
    ensures
        inp.current_stage == AutomationStage::Frozen ==> readiness_blockers(inp).contains("strategy_frozen"@) && !(readiness_blockers(inp).is_empty()
            && approval_ok(inp)),
        inp.current_stage == AutomationStage::Retired ==> readiness_blockers(inp).contains("strategy_retired"@) && !(readiness_blockers(inp).is_empty()
            && approval_ok(inp)),
        inp.directional_outcomes_scored < inp.min_directional_outcomes ==> readiness_blockers(inp).contains("insufficient_scored_outcomes"@) && !(readiness_blockers(inp).is_empty()
            && approval_ok(inp)),
        inp.checks.signal_quality_rate != MetricCheck::Within ==> readiness_blockers(inp).contains("signal_quality_below_threshold"@) && !(readiness_blockers(inp).is_empty()
            && approval_ok(inp)),
        inp.checks.mean_forward_return_pct != MetricCheck::Within ==> readiness_blockers(inp).contains("mean_forward_return_below_threshold"@) && !(readiness_blockers(inp).is_empty()
            && approval_ok(inp)),
        inp.checks.baseline_excess_return_pct != MetricCheck::Within ==> readiness_blockers(inp).contains("baseline_underperformed"@) && !(readiness_blockers(inp).is_empty()
            && approval_ok(inp)),
        inp.checks.churn_rate != MetricCheck::Within ==> readiness_blockers(inp).contains("churn_rate_high"@) && !(readiness_blockers(inp).is_empty()
            && approval_ok(inp)),
        inp.checks.proof_pass_rate != MetricCheck::Within ==> readiness_blockers(inp).contains("proof_pass_rate_below_threshold"@) && !(readiness_blockers(inp).is_empty()
            && approval_ok(inp)),
        inp.checks.incident_rate != MetricCheck::Within ==> readiness_blockers(inp).contains("incident_rate_high"@) && !(readiness_blockers(inp).is_empty()
            && approval_ok(inp)),
        inp.open_critical_incidents > 0 ==> readiness_blockers(inp).contains("open_critical_incidents"@) && !(readiness_blockers(inp).is_empty()
            && approval_ok(inp)),
        inp.checks.mean_max_drawdown_pct == MetricCheck::Breached ==> readiness_blockers(inp).contains("mean_drawdown_too_deep"@) && !(readiness_blockers(inp).is_empty()
            && approval_ok(inp)),
        inp.checks.mean_max_drawdown_pct == MetricCheck::Missing ==> readiness_blockers(inp).contains("mean_drawdown_missing"@) && !(readiness_blockers(inp).is_empty()
            && approval_ok(inp)),
        (next_of(inp.current_stage) matches Some(t) && live_capable(t)) && inp.paper_orders_total < inp.min_paper_orders_for_live ==> readiness_blockers(inp).contains("insufficient_paper_orders"@) && !(readiness_blockers(inp).is_empty()
            && approval_ok(inp)),
        (next_of(inp.current_stage) matches Some(t) && live_capable(t)) && inp.checks.paper_fill_quality_rate != MetricCheck::Within ==> readiness_blockers(inp).contains("paper_fill_quality_below_threshold"@) && !(readiness_blockers(inp).is_empty()
            && approval_ok(inp)),
        (next_of(inp.current_stage) matches Some(t) && live_capable(t)) && inp.checks.mean_slippage_bps == MetricCheck::Breached ==> readiness_blockers(inp).contains("slippage_too_high"@) && !(readiness_blockers(inp).is_empty()
            && approval_ok(inp)),
{
    reveal(reason_if);
    if inp.current_stage == AutomationStage::Frozen {
        assert(metric_blockers(inp).contains("strategy_frozen"@));
        lemma_readiness_blocked_by(inp, "strategy_frozen"@);
    }
    if inp.current_stage == AutomationStage::Retired {
        assert(metric_blockers(inp).contains("strategy_retired"@));
        lemma_readiness_blocked_by(inp, "strategy_retired"@);
    }
    if inp.directional_outcomes_scored < inp.min_directional_outcomes {
        assert(metric_blockers(inp).contains("insufficient_scored_outcomes"@));
        lemma_readiness_blocked_by(inp, "insufficient_scored_outcomes"@);
    }
    if inp.checks.signal_quality_rate != MetricCheck::Within {
        assert(metric_blockers(inp).contains("signal_quality_below_threshold"@));
        lemma_readiness_blocked_by(inp, "signal_quality_below_threshold"@);
    }
    if inp.checks.mean_forward_return_pct != MetricCheck::Within {
        assert(metric_blockers(inp).contains("mean_forward_return_below_threshold"@));
        lemma_readiness_blocked_by(inp, "mean_forward_return_below_threshold"@);
    }
    if inp.checks.baseline_excess_return_pct != MetricCheck::Within {
        assert(metric_blockers(inp).contains("baseline_underperformed"@));
        lemma_readiness_blocked_by(inp, "baseline_underperformed"@);
    }
    if inp.checks.churn_rate != MetricCheck::Within {
        assert(metric_blockers(inp).contains("churn_rate_high"@));
        lemma_readiness_blocked_by(inp, "churn_rate_high"@);
    }
    if inp.checks.proof_pass_rate != MetricCheck::Within {
        assert(metric_blockers(inp).contains("proof_pass_rate_below_threshold"@));
        lemma_readiness_blocked_by(inp, "proof_pass_rate_below_threshold"@);
    }
    if inp.checks.incident_rate != MetricCheck::Within {
        assert(metric_blockers(inp).contains("incident_rate_high"@));
        lemma_readiness_blocked_by(inp, "incident_rate_high"@);
    }
    if inp.open_critical_incidents > 0 {
        assert(metric_blockers(inp).contains("open_critical_incidents"@));
        lemma_readiness_blocked_by(inp, "open_critical_incidents"@);
    }
    if inp.checks.mean_max_drawdown_pct == MetricCheck::Breached {
        assert(metric_blockers(inp).contains("mean_drawdown_too_deep"@));
        lemma_readiness_blocked_by(inp, "mean_drawdown_too_deep"@);
    }
    if inp.checks.mean_max_drawdown_pct == MetricCheck::Missing {
        assert(metric_blockers(inp).contains("mean_drawdown_missing"@));
        lemma_readiness_blocked_by(inp, "mean_drawdown_missing"@);
    }
    if (next_of(inp.current_stage) matches Some(t) && live_capable(t)) && inp.paper_orders_total < inp.min_paper_orders_for_live {
        assert(metric_blockers(inp).contains("insufficient_paper_orders"@));
        lemma_readiness_blocked_by(inp, "insufficient_paper_orders"@);
    }
    if (next_of(inp.current_stage) matches Some(t) && live_capable(t)) && inp.checks.paper_fill_quality_rate != MetricCheck::Within {
        assert(metric_blockers(inp).contains("paper_fill_quality_below_threshold"@));
        lemma_readiness_blocked_by(inp, "paper_fill_quality_below_threshold"@);
    }
    if (next_of(inp.current_stage) matches Some(t) && live_capable(t)) && inp.checks.mean_slippage_bps == MetricCheck::Breached {
        assert(metric_blockers(inp).contains("slippage_too_high"@));
        lemma_readiness_blocked_by(inp, "slippage_too_high"@);
    }
}

/// Ready requires a next stage, a valid approval and no failed check.
pub proof fn law_ready_needs_everything(inp: ReadinessInput)
    requires
        readiness_blockers(inp).is_empty() && approval_ok(inp),
    ensures
        next_of(inp.current_stage) is Some,
        inp.approval is Some,
        inp.checks.signal_quality_rate == MetricCheck::Within,
        inp.checks.mean_forward_return_pct == MetricCheck::Within,
        inp.checks.baseline_excess_return_pct == MetricCheck::Within,
        inp.checks.churn_rate == MetricCheck::Within,
        inp.checks.proof_pass_rate == MetricCheck::Within,
        inp.checks.incident_rate == MetricCheck::Within,
        inp.checks.mean_max_drawdown_pct == MetricCheck::Within,
        inp.open_critical_incidents <= 0,
        inp.directional_outcomes_scored >= inp.min_directional_outcomes,
{
    law_each_failed_check_blocks(inp);
}

} // verus!
