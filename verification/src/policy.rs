//! The proof gate every desired-position change passes before it is
//! recorded: kill switch, permission, strategy decision, data freshness,
//! session, risk, capital caps, sleeve and broker state.

use vstd::prelude::*;
use crate::order::{copy_strings, sort_dedup, sorted_enum, views, reason_if, push_when, push_all_prefixed};
use crate::strategy::{StrategyDecisionKind, TargetSide, TradePermission, expired_at};
use crate::text::{copy_opt, copy_string, owned, opt_view, str_eq, trim, trim_chars, chars_of};

verus! {

/// The operator's automation kill switch.
#[derive(Clone, Debug)]
pub struct AutomationControlState {
    pub kill_switch_enabled: bool,
    pub kill_switch_reason: Option<String>,
}

/// Whether the market session is open, with its label.
#[derive(Clone, Debug)]
pub struct SessionPolicyState {
    pub is_open: bool,
    pub label: String,
    pub reason: Option<String>,
}

/// Everything the proof check looks at. Each capital cap is given as the
/// result of comparing the target with it (above it by more than a millionth).
/// Times are in seconds since the Unix epoch.
#[derive(Clone, Debug)]
pub struct ProofPolicyInput {
    pub strategy_id: String,
    pub strategy_version: String,
    pub config_hash: String,
    pub family: String,
    pub strategy_status: String,
    pub permission: Option<TradePermission>,
    pub decision_kind: StrategyDecisionKind,
    pub decision_target_side: Option<TargetSide>,
    pub decision_reason_codes: Vec<String>,
    pub decision_blocked_reasons: Vec<String>,
    pub control: AutomationControlState,
    pub data_freshness_status: String,
    pub data_freshness_latest_bar_at: Option<i64>,
    pub data_freshness_max_age_days: i64,
    pub data_freshness_stale: bool,
    pub session: SessionPolicyState,
    pub risk_veto: bool,
    pub risk_reasons: Vec<String>,
    pub risk_warnings: Vec<String>,
    pub weight_exceeds_cap: bool,
    pub notional_exceeds_cap: bool,
    pub sleeve_status: String,
    pub broker_status: String,
    pub broker_mismatch: bool,
    pub broker_latest_sync_at: Option<i64>,
    pub now: i64,
}

/// The permission a proof was checked against, or the record that there
/// was none.
#[derive(Clone, Debug)]
pub enum PermissionSnapshot {
    Missing,
    Recorded(TradePermission),
}

impl PermissionSnapshot {
    /// The permission's status, or "missing" when there was none.
    pub fn status(&self) -> (r: String)
        ensures
            r@ == permission_status(*self),
    {
        match self {
            PermissionSnapshot::Missing => owned("missing"),
            PermissionSnapshot::Recorded(p) => copy_string(&p.status),
        }
    }
}

pub open spec fn permission_status(s: PermissionSnapshot) -> Seq<char> {
    match s {
        PermissionSnapshot::Missing => "missing"@,
        PermissionSnapshot::Recorded(p) => p.status@,
    }
}

/// The strategy a proof was made for.
#[derive(Clone, Debug)]
pub struct StrategySnapshot {
    pub strategy_id: String,
    pub strategy_version: String,
    pub strategy_config_hash: String,
    pub family: String,
    pub status: String,
}

/// The strategy decision a proof was made for.
#[derive(Clone, Debug)]
pub struct DecisionSnapshot {
    pub kind: StrategyDecisionKind,
    pub target_side: Option<TargetSide>,
    pub reason_codes: Vec<String>,
    pub blocked_reasons: Vec<String>,
}

/// What the proof was asked, at the time it was evaluated.
#[derive(Clone, Debug)]
pub struct InputSnapshot {
    pub evaluated_at: i64,
    pub strategy: StrategySnapshot,
    pub decision: DecisionSnapshot,
    pub control: AutomationControlState,
}

/// What the risk check said.
#[derive(Clone, Debug)]
pub struct RiskResult {
    pub veto: bool,
    pub reasons: Vec<String>,
    pub warnings: Vec<String>,
}

/// How fresh the market data was.
#[derive(Clone, Debug)]
pub struct DataFreshnessSnapshot {
    pub status: String,
    pub latest_bar_at: Option<i64>,
    pub max_age_days: i64,
    pub stale: bool,
}

/// How the target compared with the permission's caps.
#[derive(Clone, Debug)]
pub struct CapitalAllocationSnapshot {
    pub weight_exceeds_cap: bool,
    pub notional_exceeds_cap: bool,
}

/// What the broker reconciliation reported.
#[derive(Clone, Debug)]
pub struct BrokerReconciliation {
    pub status: String,
    pub mismatch: bool,
    pub latest_sync_at: Option<i64>,
}

/// The outcome of the proof gate, with the record of what it looked at.
#[derive(Clone, Debug)]
pub struct ProofPolicyDecision {
    pub result: &'static str,
    pub blocked_reasons: Vec<String>,
    pub input_snapshot: InputSnapshot,
    pub permission_snapshot: PermissionSnapshot,
    pub risk_result: RiskResult,
    pub data_freshness: DataFreshnessSnapshot,
    pub session_state: SessionPolicyState,
    pub capital_allocation: CapitalAllocationSnapshot,
    pub broker_reconciliation: BrokerReconciliation,
}

pub open spec fn same_permission(a: TradePermission, b: TradePermission) -> bool {
    &&& a.permission_id@ == b.permission_id@
    &&& a.symbol@ == b.symbol@
    &&& a.strategy_id@ == b.strategy_id@
    &&& a.strategy_version@ == b.strategy_version@
    &&& a.status@ == b.status@
    &&& a.instrument_scope@ == b.instrument_scope@
    &&& a.environment_scope@ == b.environment_scope@
    &&& a.manual_freeze == b.manual_freeze
    &&& a.expires_at == b.expires_at
}

/// The permission snapshot records the permission as it was given, and
/// records a missing permission as missing.
pub open spec fn permission_recorded(s: PermissionSnapshot, p: Option<TradePermission>) -> bool {
    match (s, p) {
        (PermissionSnapshot::Missing, None) => true,
        (PermissionSnapshot::Recorded(a), Some(b)) => same_permission(a, b),
        _ => false,
    }
}

pub open spec fn same_control(a: AutomationControlState, b: AutomationControlState) -> bool {
    a.kill_switch_enabled == b.kill_switch_enabled && opt_view(a.kill_switch_reason) == opt_view(
        b.kill_switch_reason,
    )
}

/// The input snapshot records the strategy, the decision and the kill
/// switch as given, at the time of evaluation.
pub open spec fn input_recorded(s: InputSnapshot, inp: ProofPolicyInput) -> bool {
    &&& s.evaluated_at == inp.now
    &&& s.strategy.strategy_id@ == inp.strategy_id@
    &&& s.strategy.strategy_version@ == inp.strategy_version@
    &&& s.strategy.strategy_config_hash@ == inp.config_hash@
    &&& s.strategy.family@ == inp.family@
    &&& s.strategy.status@ == inp.strategy_status@
    &&& s.decision.kind == inp.decision_kind
    &&& s.decision.target_side == inp.decision_target_side
    &&& views(s.decision.reason_codes@) == views(inp.decision_reason_codes@)
    &&& views(s.decision.blocked_reasons@) == views(inp.decision_blocked_reasons@)
    &&& same_control(s.control, inp.control)
}

/// Each of the other snapshots records its part of the input as given.
pub open spec fn states_recorded(r: ProofPolicyDecision, inp: ProofPolicyInput) -> bool {
    &&& r.risk_result.veto == inp.risk_veto
    &&& views(r.risk_result.reasons@) == views(inp.risk_reasons@)
    &&& views(r.risk_result.warnings@) == views(inp.risk_warnings@)
    &&& r.data_freshness.status@ == inp.data_freshness_status@
    &&& r.data_freshness.latest_bar_at == inp.data_freshness_latest_bar_at
    &&& r.data_freshness.max_age_days == inp.data_freshness_max_age_days
    &&& r.data_freshness.stale == inp.data_freshness_stale
    &&& r.session_state.is_open == inp.session.is_open
    &&& r.session_state.label@ == inp.session.label@
    &&& opt_view(r.session_state.reason) == opt_view(inp.session.reason)
    &&& r.capital_allocation.weight_exceeds_cap == inp.weight_exceeds_cap
    &&& r.capital_allocation.notional_exceeds_cap == inp.notional_exceeds_cap
    &&& r.broker_reconciliation.status@ == inp.broker_status@
    &&& r.broker_reconciliation.mismatch == inp.broker_mismatch
    &&& r.broker_reconciliation.latest_sync_at == inp.broker_latest_sync_at
}

pub open spec fn permission_blockers(inp: ProofPolicyInput) -> Set<Seq<char>> {
    match inp.permission {
        None => set!["permission_missing"@],
        Some(p) => reason_if(p.status@ != "approved"@, "permission_not_approved"@) + reason_if(
            p.environment_scope@ != "shadow"@,
            "environment_not_shadow"@,
        ) + reason_if(p.manual_freeze, "permission_frozen"@) + reason_if(
            expired_at(p.expires_at, inp.now),
            "permission_expired"@,
        ) + reason_if(
            p.strategy_id@ != inp.strategy_id@ || p.strategy_version@ != inp.strategy_version@,
            "permission_strategy_mismatch"@,
        ),
    }
}

/// Every reason that blocks the proof.
pub open spec fn proof_blockers(inp: ProofPolicyInput) -> Set<Seq<char>> {
    reason_if(inp.control.kill_switch_enabled, "automation_kill_switch"@) + permission_blockers(inp)
        + reason_if(trim(inp.config_hash@).len() == 0, "strategy_config_hash_missing"@) + (if inp.decision_kind
        == StrategyDecisionKind::Blocked {
        views(inp.decision_blocked_reasons@).to_set()
    } else {
        Set::empty()
    }) + reason_if(
        inp.data_freshness_stale || inp.data_freshness_status@ == "stale"@,
        "data_freshness_stale"@,
    ) + reason_if(inp.data_freshness_status@ == "missing"@, "data_freshness_missing"@) + reason_if(
        !inp.session.is_open,
        "session_closed"@,
    ) + (if inp.risk_veto {
        views(inp.risk_reasons@).map_values(|r: Seq<char>| "risk_"@ + r).to_set()
    } else {
        Set::empty()
    }) + reason_if(inp.weight_exceeds_cap, "allocation_exceeds_permission_cap"@) + reason_if(
        inp.notional_exceeds_cap,
        "allocation_exceeds_notional_cap"@,
    ) + reason_if(inp.sleeve_status@ == "frozen"@, "sleeve_frozen"@) + reason_if(
        inp.sleeve_status@ == "closed"@,
        "sleeve_closed"@,
    ) + reason_if(inp.broker_mismatch || inp.broker_status@ == "mismatch"@, "broker_state_mismatch"@)
}

/// Blocked when any reason blocks; else a warning when risk warned; else
/// passed.
pub open spec fn proof_result(inp: ProofPolicyInput) -> Seq<char> {
    if !proof_blockers(inp).is_empty() {
        "blocked"@
    } else if inp.risk_warnings@.len() > 0 {
        "warning"@
    } else {
        "passed"@
    }
}

fn collect_permission(v: &mut Vec<String>, input: &ProofPolicyInput)
    ensures
        views(final(v)@).to_set() == views(old(v)@).to_set() + permission_blockers(*input),
{
    let ghost before = views(v@).to_set();
    match &input.permission {
        Some(permission) => {
            push_when(v, !str_eq(permission.status.as_str(), "approved"), "permission_not_approved");
            push_when(v, !str_eq(permission.environment_scope.as_str(), "shadow"), "environment_not_shadow");
            push_when(v, permission.manual_freeze, "permission_frozen");
            push_when(v, match permission.expires_at {
                Some(t) => t <= input.now,
                None => false,
            }, "permission_expired");
            push_when(v, !(permission.strategy_id == input.strategy_id) || !(permission.strategy_version == input.strategy_version), "permission_strategy_mismatch");
            assert(views(v@).to_set() =~= before + permission_blockers(*input));
        },
        None => {
            push_when(v, true, "permission_missing");
            reveal(reason_if);
            assert(views(v@).to_set() =~= before + permission_blockers(*input));
        },
    }
}

fn push_all(v: &mut Vec<String>, c: bool, items: &Vec<String>)
    ensures
        views(final(v)@).to_set() == views(old(v)@).to_set() + (if c {
            views(items@).to_set()
        } else {
            Set::empty()
        }),
{
    let ghost before = views(v@);
    if c {
        let mut i: usize = 0;
        while i < items.len()
            invariant
                i <= items@.len(),
                views(v@) == before + views(items@).take(i as int),
            decreases items.len() - i,
        {
            let ghost prev = views(v@);
            v.push(items[i].clone());
            assert(views(v@) =~= prev.push(items@[i as int]@));
            assert(views(items@).take(i + 1) =~= views(items@).take(i as int).push(items@[i as int]@));
            assert(views(v@) =~= before + views(items@).take(i + 1));
            i += 1;
        }
        let ghost it = views(items@);
        assert(it.take(items@.len() as int) =~= it);
        assert forall|x: Seq<char>| #[trigger] (before + it).to_set().contains(x) <==> (
        before.to_set() + it.to_set()).contains(x) by {
            if (before + it).to_set().contains(x) {
                let k = choose|k: int| 0 <= k < (before + it).len() && (before + it)[k] == x;
                if k < before.len() {
                    assert(before[k] == x);
                } else {
                    assert(it[k - before.len()] == x);
                }
            }
            if before.to_set().contains(x) {
                let k = choose|k: int| 0 <= k < before.len() && before[k] == x;
                assert((before + it)[k] == x);
            }
            if it.to_set().contains(x) {
                let k = choose|k: int| 0 <= k < it.len() && it[k] == x;
                assert((before + it)[k + before.len()] == x);
            }
        }
        assert(views(v@).to_set() =~= before.to_set() + it.to_set());
    } else {
        assert(views(v@).to_set() =~= before.to_set() + Set::empty());
    }
}

fn copy_permission(p: &TradePermission) -> (r: TradePermission)
    ensures
        same_permission(r, *p),
{
    TradePermission {
        permission_id: copy_string(&p.permission_id),
        symbol: copy_string(&p.symbol),
        strategy_id: copy_string(&p.strategy_id),
        strategy_version: copy_string(&p.strategy_version),
        status: copy_string(&p.status),
        instrument_scope: copy_string(&p.instrument_scope),
        environment_scope: copy_string(&p.environment_scope),
        manual_freeze: p.manual_freeze,
        expires_at: p.expires_at,
    }
}

/// The record of the permission a proof is checked against.
pub fn permission_snapshot(permission: &Option<TradePermission>) -> (r: PermissionSnapshot)
    ensures
        permission_recorded(r, *permission),
{
    match permission {
        Some(p) => PermissionSnapshot::Recorded(copy_permission(p)),
        None => PermissionSnapshot::Missing,
    }
}

/// The record of the strategy, the decision and the kill switch a proof is
/// asked about.
pub fn input_snapshot(input: &ProofPolicyInput) -> (r: InputSnapshot)
    ensures
        input_recorded(r, *input),
{
    InputSnapshot {
        evaluated_at: input.now,
        strategy: StrategySnapshot {
            strategy_id: copy_string(&input.strategy_id),
            strategy_version: copy_string(&input.strategy_version),
            strategy_config_hash: copy_string(&input.config_hash),
            family: copy_string(&input.family),
            status: copy_string(&input.strategy_status),
        },
        decision: DecisionSnapshot {
            kind: input.decision_kind,
            target_side: input.decision_target_side,
            reason_codes: copy_strings(&input.decision_reason_codes),
            blocked_reasons: copy_strings(&input.decision_blocked_reasons),
        },
        control: AutomationControlState {
            kill_switch_enabled: input.control.kill_switch_enabled,
            kill_switch_reason: copy_opt(&input.control.kill_switch_reason),
        },
    }
}

/// Decides the proof: the sorted distinct blocking reasons and the result,
/// with the record of every state it looked at.
pub fn evaluate_proof_policy(input: &ProofPolicyInput) -> (r: ProofPolicyDecision)
    ensures
        views(r.blocked_reasons@) == sorted_enum(proof_blockers(*input)),
        r.result@ == proof_result(*input),
        input_recorded(r.input_snapshot, *input),
        permission_recorded(r.permission_snapshot, input.permission),
        states_recorded(r, *input),
{
    let mut v: Vec<String> = Vec::new();
    assert(views(v@).to_set() =~= Set::empty());
    push_when(&mut v, input.control.kill_switch_enabled, "automation_kill_switch");
    collect_permission(&mut v, input);
    let hash = trim_chars(&chars_of(input.config_hash.as_str()));
    push_when(&mut v, hash.len() == 0, "strategy_config_hash_missing");
    push_all(&mut v, input.decision_kind == StrategyDecisionKind::Blocked, &input.decision_blocked_reasons);
    push_when(&mut v, input.data_freshness_stale || str_eq(input.data_freshness_status.as_str(), "stale"), "data_freshness_stale");
    push_when(&mut v, str_eq(input.data_freshness_status.as_str(), "missing"), "data_freshness_missing");
    push_when(&mut v, !input.session.is_open, "session_closed");
    let ghost before_risk = views(v@).to_set();
    if input.risk_veto {
        push_all_prefixed(&mut v, "risk_", &input.risk_reasons);
    } else {
        assert(views(v@).to_set() =~= before_risk + Set::empty());
    }
    push_when(&mut v, input.weight_exceeds_cap, "allocation_exceeds_permission_cap");
    push_when(&mut v, input.notional_exceeds_cap, "allocation_exceeds_notional_cap");
    push_when(&mut v, str_eq(input.sleeve_status.as_str(), "frozen"), "sleeve_frozen");
    push_when(&mut v, str_eq(input.sleeve_status.as_str(), "closed"), "sleeve_closed");
    push_when(&mut v, input.broker_mismatch || str_eq(input.broker_status.as_str(), "mismatch"), "broker_state_mismatch");
    assert(views(v@).to_set() =~= proof_blockers(*input));
    let blocked_reasons = sort_dedup(v);
    let result = if blocked_reasons.len() == 0 {
        if input.risk_warnings.len() == 0 {
            "passed"
        } else {
            "warning"
        }
    } else {
        "blocked"
    };
    ProofPolicyDecision {
        result,
        blocked_reasons,
        input_snapshot: input_snapshot(input),
        permission_snapshot: permission_snapshot(&input.permission),
        risk_result: RiskResult {
            veto: input.risk_veto,
            reasons: copy_strings(&input.risk_reasons),
            warnings: copy_strings(&input.risk_warnings),
        },
        data_freshness: DataFreshnessSnapshot {
            status: copy_string(&input.data_freshness_status),
            latest_bar_at: input.data_freshness_latest_bar_at,
            max_age_days: input.data_freshness_max_age_days,
            stale: input.data_freshness_stale,
        },
        session_state: SessionPolicyState {
            is_open: input.session.is_open,
            label: copy_string(&input.session.label),
            reason: copy_opt(&input.session.reason),
        },
        capital_allocation: CapitalAllocationSnapshot {
            weight_exceeds_cap: input.weight_exceeds_cap,
            notional_exceeds_cap: input.notional_exceeds_cap,
        },
        broker_reconciliation: BrokerReconciliation {
            status: copy_string(&input.broker_status),
            mismatch: input.broker_mismatch,
            latest_sync_at: input.broker_latest_sync_at,
        },
    }
}

/// The status a risk check records: a veto, else a pass without warnings,
/// else a warning.
pub open spec fn risk_status_of(veto: bool, warned: bool) -> Seq<char> {
    if veto {
        "veto"@
    } else if !warned {
        "pass"@
    } else {
        "warning"@
    }
}

/// The status of a risk check with these warnings.
pub fn risk_status(veto: bool, warnings: &Vec<String>) -> (r: &'static str)
    ensures
        r@ == risk_status_of(veto, warnings@.len() > 0),
{
    if veto {
        "veto"
    } else if warnings.len() == 0 {
        "pass"
    } else {
        "warning"
    }
}

/// The risk check's warnings, with `portfolio_demo` added when the
/// portfolio it judged is the demo one.
pub fn risk_warnings(warnings: Vec<String>, portfolio_demo: bool) -> (r: Vec<String>)
    ensures
        views(r@) == views(warnings@) + (if portfolio_demo {
            seq!["portfolio_demo"@]
        } else {
            Seq::empty()
        }),
{
    let mut r = warnings;
    let ghost before = views(r@);
    if portfolio_demo {
        r.push(owned("portfolio_demo"));
        assert(views(r@) =~= before + seq!["portfolio_demo"@]);
    } else {
        assert(views(r@) =~= before + Seq::empty());
    }
    r
}

/// A proof is blocked exactly when something blocks it; it passes only when
/// nothing blocks it and risk raised no warning.
pub proof fn law_proof_blocked_iff_blockers(inp: ProofPolicyInput)
    ensures
        (proof_result(inp) == "blocked"@) <==> !proof_blockers(inp).is_empty(),
        (proof_result(inp) == "passed"@) <==> (proof_blockers(inp).is_empty() && inp.risk_warnings@.len() == 0),
{
    reveal_strlit("blocked");
    reveal_strlit("warning");
    reveal_strlit("passed");
    assert("blocked"@[0] == 'b' && "warning"@[0] == 'w' && "passed"@[0] == 'p');
}

/// Without a permission the proof is blocked for that reason, and its
/// record of the permission says "missing".
pub proof fn law_missing_permission(inp: ProofPolicyInput, recorded: PermissionSnapshot)
    requires
        inp.permission is None,
        permission_recorded(recorded, inp.permission),
    ensures
        permission_status(recorded) == "missing"@,
        proof_blockers(inp).contains("permission_missing"@),
        proof_result(inp) == "blocked"@,
{
    reveal(reason_if);
    assert(proof_blockers(inp).contains("permission_missing"@));
}

proof fn lemma_blocked_by(inp: ProofPolicyInput, x: Seq<char>)
    requires
        proof_blockers(inp).contains(x),
    ensures
        proof_result(inp) == "blocked"@,
{
    assert(!proof_blockers(inp).is_empty()) by {
        assert(!Set::<Seq<char>>::empty().contains(x));
    }
}

/// Every blocking condition of the proof gate adds its own reason and blocks the proof:
/// a present permission that is not approved, not for the shadow
/// environment, frozen, expired or for another strategy version; the kill
/// switch; a blank config hash; stale, missing data; a closed session; each
/// exceeded cap; a frozen or closed sleeve; a broker mismatch.
pub proof fn law_each_check_blocks(inp: ProofPolicyInput)
    ensures
        inp.permission matches Some(p) && p.status@ != "approved"@ ==> proof_blockers(inp).contains(
            "permission_not_approved"@,
        ) && proof_result(inp) == "blocked"@,
        inp.permission matches Some(p) && p.environment_scope@ != "shadow"@ ==> proof_blockers(inp).contains(
            "environment_not_shadow"@,
        ) && proof_result(inp) == "blocked"@,
        inp.permission matches Some(p) && p.manual_freeze ==> proof_blockers(inp).contains("permission_frozen"@)
            && proof_result(inp) == "blocked"@,
        inp.permission matches Some(p) && (p.expires_at matches Some(t) && t <= inp.now) ==> proof_blockers(
            inp,
        ).contains("permission_expired"@) && proof_result(inp) == "blocked"@,
        inp.permission matches Some(p) && (p.strategy_id@ != inp.strategy_id@ || p.strategy_version@
            != inp.strategy_version@) ==> proof_blockers(inp).contains("permission_strategy_mismatch"@)
            && proof_result(inp) == "blocked"@,
        inp.control.kill_switch_enabled ==> proof_blockers(inp).contains("automation_kill_switch"@)
            && proof_result(inp) == "blocked"@,
        trim(inp.config_hash@).len() == 0 ==> proof_blockers(inp).contains("strategy_config_hash_missing"@)
            && proof_result(inp) == "blocked"@,
        (inp.data_freshness_stale || inp.data_freshness_status@ == "stale"@) ==> proof_blockers(inp).contains(
            "data_freshness_stale"@,
        ) && proof_result(inp) == "blocked"@,
        inp.data_freshness_status@ == "missing"@ ==> proof_blockers(inp).contains("data_freshness_missing"@)
            && proof_result(inp) == "blocked"@,
        !inp.session.is_open ==> proof_blockers(inp).contains("session_closed"@) && proof_result(inp)
            == "blocked"@,
        inp.weight_exceeds_cap ==> proof_blockers(inp).contains("allocation_exceeds_permission_cap"@)
            && proof_result(inp) == "blocked"@,
        inp.notional_exceeds_cap ==> proof_blockers(inp).contains("allocation_exceeds_notional_cap"@)
            && proof_result(inp) == "blocked"@,
        inp.sleeve_status@ == "frozen"@ ==> proof_blockers(inp).contains("sleeve_frozen"@) && proof_result(inp)
            == "blocked"@,
        inp.sleeve_status@ == "closed"@ ==> proof_blockers(inp).contains("sleeve_closed"@) && proof_result(inp)
            == "blocked"@,
        (inp.broker_mismatch || inp.broker_status@ == "mismatch"@) ==> proof_blockers(inp).contains(
            "broker_state_mismatch"@,
        ) && proof_result(inp) == "blocked"@,
{
    reveal(reason_if);
    if inp.permission matches Some(p) && p.status@ != "approved"@ {
        assert(permission_blockers(inp).contains("permission_not_approved"@));
        lemma_blocked_by(inp, "permission_not_approved"@);
    }
    if inp.permission matches Some(p) && p.environment_scope@ != "shadow"@ {
        assert(permission_blockers(inp).contains("environment_not_shadow"@));
        lemma_blocked_by(inp, "environment_not_shadow"@);
    }
    if inp.permission matches Some(p) && p.manual_freeze {
        assert(permission_blockers(inp).contains("permission_frozen"@));
        lemma_blocked_by(inp, "permission_frozen"@);
    }
    if inp.permission matches Some(p) && (p.expires_at matches Some(t) && t <= inp.now) {
        assert(permission_blockers(inp).contains("permission_expired"@));
        lemma_blocked_by(inp, "permission_expired"@);
    }
    if inp.permission matches Some(p) && (p.strategy_id@ != inp.strategy_id@ || p.strategy_version@ != inp.strategy_version@) {
        assert(permission_blockers(inp).contains("permission_strategy_mismatch"@));
        lemma_blocked_by(inp, "permission_strategy_mismatch"@);
    }
    if inp.control.kill_switch_enabled {
        lemma_blocked_by(inp, "automation_kill_switch"@);
    }
    if trim(inp.config_hash@).len() == 0 {
        lemma_blocked_by(inp, "strategy_config_hash_missing"@);
    }
    if (inp.data_freshness_stale || inp.data_freshness_status@ == "stale"@) {
        lemma_blocked_by(inp, "data_freshness_stale"@);
    }
    if inp.data_freshness_status@ == "missing"@ {
        lemma_blocked_by(inp, "data_freshness_missing"@);
    }
    if !inp.session.is_open {
        lemma_blocked_by(inp, "session_closed"@);
    }
    if inp.weight_exceeds_cap {
        lemma_blocked_by(inp, "allocation_exceeds_permission_cap"@);
    }
    if inp.notional_exceeds_cap {
        lemma_blocked_by(inp, "allocation_exceeds_notional_cap"@);
    }
    if inp.sleeve_status@ == "frozen"@ {
        lemma_blocked_by(inp, "sleeve_frozen"@);
    }
    if inp.sleeve_status@ == "closed"@ {
        lemma_blocked_by(inp, "sleeve_closed"@);
    }
    if (inp.broker_mismatch || inp.broker_status@ == "mismatch"@) {
        lemma_blocked_by(inp, "broker_state_mismatch"@);
    }
}

/// A risk veto blocks the proof with each of its reasons, prefixed by
/// `risk_`; a blocked strategy decision blocks it with each of its reasons.
pub proof fn law_vetoes_carry_their_reasons(inp: ProofPolicyInput, i: int)
    ensures
        inp.risk_veto && 0 <= i < inp.risk_reasons@.len() ==> proof_blockers(inp).contains(
            "risk_"@ + inp.risk_reasons@[i]@,
        ) && proof_result(inp) == "blocked"@,
        inp.decision_kind == StrategyDecisionKind::Blocked && 0 <= i < inp.decision_blocked_reasons@.len()
            ==> proof_blockers(inp).contains(inp.decision_blocked_reasons@[i]@) && proof_result(inp)
            == "blocked"@,
{
    if inp.risk_veto && 0 <= i < inp.risk_reasons@.len() {
        let q = views(inp.risk_reasons@).map_values(|r: Seq<char>| "risk_"@ + r);
        assert(q[i] == "risk_"@ + inp.risk_reasons@[i]@);
        assert(q.to_set().contains(q[i]));
        assert(proof_blockers(inp).contains(q[i]));
        lemma_blocked_by(inp, q[i]);
    }
    if inp.decision_kind == StrategyDecisionKind::Blocked && 0 <= i < inp.decision_blocked_reasons@.len() {
        let q = views(inp.decision_blocked_reasons@);
        assert(q[i] == inp.decision_blocked_reasons@[i]@);
        assert(q.to_set().contains(q[i]));
        assert(proof_blockers(inp).contains(q[i]));
        lemma_blocked_by(inp, q[i]);
    }
}

/// A proof passes only when nothing blocks it and risk raised no warning;
/// otherwise a warning when only risk warned.
pub proof fn law_passed_means_clear(inp: ProofPolicyInput)
    ensures
        proof_result(inp) == "passed"@ ==> proof_blockers(inp).is_empty() && inp.risk_warnings@.len() == 0,
        proof_result(inp) == "warning"@ ==> proof_blockers(inp).is_empty() && inp.risk_warnings@.len() > 0,
        proof_result(inp) == "blocked"@ || proof_result(inp) == "warning"@ || proof_result(inp) == "passed"@,
{
    reveal_strlit("blocked");
    reveal_strlit("warning");
    reveal_strlit("passed");
    assert("blocked"@[0] == 'b' && "warning"@[0] == 'w' && "passed"@[0] == 'p');
}

} // verus!
