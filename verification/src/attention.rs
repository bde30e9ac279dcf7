//! Attention queue: what needs the operator's judgment.
//!
//! Events say what happened; attention items say what needs a decision.
//! Producers open items (discovery candidates, actionable theses, risk
//! reviews, stale context); resolvers close them. The helpers here give every
//! producer the same state, owner and title vocabulary.

pub mod fsm;
pub mod kind;
pub mod owner;
pub mod severity;
pub mod source;

use vstd::prelude::*;
use crate::text::{str_eq, owned, append, append_string};

verus! {

pub open spec fn valid_fsm_state(s: Seq<char>) -> bool {
    ||| s == fsm::QUEUED@
    ||| s == fsm::EVALUATING@
    ||| s == fsm::WAITING_ON_DATA@
    ||| s == fsm::READY_FOR_REVIEW@
    ||| s == fsm::OPERATOR_DEFERRED@
    ||| s == fsm::ACTIONABLE@
    ||| s == fsm::RESOLVED@
    ||| s == fsm::DISMISSED@
    ||| s == fsm::BLOCKED@
}

pub open spec fn valid_owner(s: Seq<char>) -> bool {
    ||| s == owner::SYSTEM@
    ||| s == owner::OPERATOR@
    ||| s == owner::SOURCE@
    ||| s == owner::COGNITION@
    ||| s == owner::RISK@
}

/// The coarse status an operational state maps to.
pub open spec fn status_of(state: Seq<char>) -> Seq<char> {
    if state == fsm::RESOLVED@ {
        "resolved"@
    } else if state == fsm::DISMISSED@ {
        "dismissed"@
    } else {
        "open"@
    }
}

/// Who owns an item by default in a given state.
pub open spec fn default_owner_of(state: Seq<char>) -> Seq<char> {
    if state == fsm::QUEUED@ || state == fsm::EVALUATING@ {
        owner::SYSTEM@
    } else if state == fsm::WAITING_ON_DATA@ || state == fsm::BLOCKED@ {
        owner::SOURCE@
    } else if state == fsm::RESOLVED@ {
        owner::SYSTEM@
    } else {
        owner::OPERATOR@
    }
}

/// The state and owner a newly opened item starts with.
pub open spec fn initial_of(k: Seq<char>, sev: Seq<char>, src: Seq<char>) -> (Seq<char>, Seq<char>) {
    if k == kind::CANDIDATE_REVIEW@ {
        (fsm::READY_FOR_REVIEW@, owner::OPERATOR@)
    } else if k == kind::THESIS_REVIEW@ {
        (fsm::READY_FOR_REVIEW@, owner::OPERATOR@)
    } else if k == kind::THESIS_ACTIONABLE@ {
        (fsm::ACTIONABLE@, owner::OPERATOR@)
    } else if k == kind::RISK_REVIEW@ && sev == severity::BLOCKED@ {
        (fsm::BLOCKED@, owner::OPERATOR@)
    } else if k == kind::RISK_REVIEW@ {
        (fsm::READY_FOR_REVIEW@, owner::OPERATOR@)
    } else if k == kind::THESIS_INCOMPLETE@ && src == source::CONSENSUS@ {
        (fsm::EVALUATING@, owner::COGNITION@)
    } else if k == kind::THESIS_INCOMPLETE@ && src == source::CONTEXT@ {
        (fsm::WAITING_ON_DATA@, owner::SOURCE@)
    } else if k == kind::CONTEXT_STALE@ {
        (fsm::WAITING_ON_DATA@, owner::COGNITION@)
    } else {
        (fsm::READY_FOR_REVIEW@, owner::OPERATOR@)
    }
}

/// The operator-facing label of a named discovery signal, if it has one.
pub open spec fn candidate_label(signal: Seq<char>) -> Option<Seq<char>> {
    if signal == "early_accumulation"@ {
        Some("possible early accumulation"@)
    } else if signal == "breakout_confirmation"@ {
        Some("breakout confirmation"@)
    } else if signal == "extended_momentum"@ {
        Some("extended momentum review"@)
    } else if signal == "consensus_arrival"@ {
        Some("consensus arrival review"@)
    } else if signal == "possible_exhaustion"@ {
        Some("possible exhaustion review"@)
    } else if signal == "existing_thesis_trigger"@ {
        Some("existing thesis trigger"@)
    } else if signal == "research_nomination"@ {
        Some("research nomination"@)
    } else {
        None
    }
}

pub open spec fn candidate_title(symbol: Seq<char>, signal: Seq<char>) -> Seq<char> {
    match candidate_label(signal) {
        Some(label) => symbol + ": "@ + label,
        None => symbol + " candidate via "@ + signal,
    }
}

/// `items` joined with `sep` between consecutive items.
pub open spec fn join(items: Seq<Seq<char>>, sep: Seq<char>) -> Seq<char>
    decreases items.len(),
{
    if items.len() == 0 {
        Seq::empty()
    } else if items.len() == 1 {
        items[0]
    } else {
        join(items.drop_last(), sep) + sep + items.last()
    }
}

pub open spec fn risk_title(symbol: Seq<char>, veto: bool, reasons: Seq<Seq<char>>) -> Seq<char> {
    let head = if veto {
        "veto"@
    } else {
        "warning"@
    };
    if reasons.len() == 0 {
        symbol + " risk "@ + head
    } else {
        symbol + " risk "@ + head + ": "@ + join(reasons, ", "@)
    }
}

/// Whether `state` is one of the operational states.
pub fn is_valid_fsm_state(state: &str) -> (r: bool)
    ensures
        r == valid_fsm_state(state@),
{
    str_eq(state, fsm::QUEUED) || str_eq(state, fsm::EVALUATING) || str_eq(state, fsm::WAITING_ON_DATA)
        || str_eq(state, fsm::READY_FOR_REVIEW) || str_eq(state, fsm::OPERATOR_DEFERRED) || str_eq(
        state,
        fsm::ACTIONABLE,
    ) || str_eq(state, fsm::RESOLVED) || str_eq(state, fsm::DISMISSED) || str_eq(state, fsm::BLOCKED)
}

/// Whether `value` is one of the owner labels.
pub fn is_valid_owner(value: &str) -> (r: bool)
    ensures
        r == valid_owner(value@),
{
    str_eq(value, owner::SYSTEM) || str_eq(value, owner::OPERATOR) || str_eq(value, owner::SOURCE)
        || str_eq(value, owner::COGNITION) || str_eq(value, owner::RISK)
}

/// Terminal states close the item; every other state keeps it open.
pub fn status_for_state(state: &str) -> (r: &'static str)
    ensures
        r@ == status_of(state@),
{
    if str_eq(state, fsm::RESOLVED) {
        "resolved"
    } else if str_eq(state, fsm::DISMISSED) {
        "dismissed"
    } else {
        "open"
    }
}

/// The owner that works an item in `state` unless someone else claims it.
pub fn default_owner_for_state(state: &str) -> (r: &'static str)
    ensures
        r@ == default_owner_of(state@),
{
    if str_eq(state, fsm::QUEUED) || str_eq(state, fsm::EVALUATING) {
        owner::SYSTEM
    } else if str_eq(state, fsm::WAITING_ON_DATA) || str_eq(state, fsm::BLOCKED) {
        owner::SOURCE
    } else if str_eq(state, fsm::RESOLVED) {
        owner::SYSTEM
    } else {
        owner::OPERATOR
    }
}

/// The starting `(state, owner)` of an item of the given kind, severity and
/// source.
pub fn initial_assignment(kind: &str, severity: &str, source: &str) -> (r: (&'static str, &'static str))
    ensures
        (r.0@, r.1@) == initial_of(kind@, severity@, source@),
{
    if str_eq(kind, kind::CANDIDATE_REVIEW) {
        (fsm::READY_FOR_REVIEW, owner::OPERATOR)
    } else if str_eq(kind, kind::THESIS_REVIEW) {
        (fsm::READY_FOR_REVIEW, owner::OPERATOR)
    } else if str_eq(kind, kind::THESIS_ACTIONABLE) {
        (fsm::ACTIONABLE, owner::OPERATOR)
    } else if str_eq(kind, kind::RISK_REVIEW) && str_eq(severity, severity::BLOCKED) {
        (fsm::BLOCKED, owner::OPERATOR)
    } else if str_eq(kind, kind::RISK_REVIEW) {
        (fsm::READY_FOR_REVIEW, owner::OPERATOR)
    } else if str_eq(kind, kind::THESIS_INCOMPLETE) && str_eq(source, source::CONSENSUS) {
        (fsm::EVALUATING, owner::COGNITION)
    } else if str_eq(kind, kind::THESIS_INCOMPLETE) && str_eq(source, source::CONTEXT) {
        (fsm::WAITING_ON_DATA, owner::SOURCE)
    } else if str_eq(kind, kind::CONTEXT_STALE) {
        (fsm::WAITING_ON_DATA, owner::COGNITION)
    } else {
        (fsm::READY_FOR_REVIEW, owner::OPERATOR)
    }
}

fn candidate_label_exec(signal_name: &str) -> (r: Option<&'static str>)
    ensures
        r matches Some(l) ==> candidate_label(signal_name@) == Some(l@),
        r is None ==> candidate_label(signal_name@) is None,
{
    if str_eq(signal_name, "early_accumulation") {
        Some("possible early accumulation")
    } else if str_eq(signal_name, "breakout_confirmation") {
        Some("breakout confirmation")
    } else if str_eq(signal_name, "extended_momentum") {
        Some("extended momentum review")
    } else if str_eq(signal_name, "consensus_arrival") {
        Some("consensus arrival review")
    } else if str_eq(signal_name, "possible_exhaustion") {
        Some("possible exhaustion review")
    } else if str_eq(signal_name, "existing_thesis_trigger") {
        Some("existing thesis trigger")
    } else if str_eq(signal_name, "research_nomination") {
        Some("research nomination")
    } else {
        None
    }
}

/// The standard title of a candidate-review item.
pub fn title_for_candidate(symbol: &str, signal_name: &str) -> (r: String)
    ensures
        r@ == candidate_title(symbol@, signal_name@),
{
    let mut t = owned(symbol);
    match candidate_label_exec(signal_name) {
        Some(label) => {
            append(&mut t, ": ");
            append(&mut t, label);
        },
        None => {
            append(&mut t, " candidate via ");
            append(&mut t, signal_name);
        },
    }
    t
}

/// The standard title of a thesis-actionable item.
pub fn title_for_thesis_actionable(symbol: &str) -> (r: String)
    ensures
        r@ == symbol@ + " thesis ready to act on"@,
{
    let mut t = owned(symbol);
    append(&mut t, " thesis ready to act on");
    t
}

/// The standard title of a risk-review item: veto or warning, then the
/// reasons joined by commas.
pub fn title_for_risk_review(symbol: &str, veto: bool, reasons: &[String]) -> (r: String)
    ensures
        r@ == risk_title(symbol@, veto, reasons@.map_values(|s: String| s@)),
{
    let ghost rv = reasons@.map_values(|s: String| s@);
    let mut t = owned(symbol);
    append(&mut t, " risk ");
    if veto {
        append(&mut t, "veto");
    } else {
        append(&mut t, "warning");
    }
    if reasons.len() > 0 {
        append(&mut t, ": ");
        let ghost base = t@;
        append_string(&mut t, &reasons[0]);
        assert(rv.take(1) =~= seq![rv[0]]);
        let mut i: usize = 1;
        while i < reasons.len()
            invariant
                1 <= i <= reasons@.len(),
                rv == reasons@.map_values(|s: String| s@),
                t@ == base + join(rv.take(i as int), ", "@),
            decreases reasons.len() - i,
        {
            append(&mut t, ", ");
            append_string(&mut t, &reasons[i]);
            assert(rv.take(i + 1).drop_last() =~= rv.take(i as int));
            assert(rv.take(i + 1).last() == rv[i as int]);
            i += 1;
        }
        assert(rv.take(reasons@.len() as int) =~= rv);
    }
    t
}

// ------------------------------------------------------------------ laws

/// Every item opens in a valid state with a valid owner, whatever its kind,
/// severity and source.
pub proof fn law_initial_assignment_is_valid(k: Seq<char>, sev: Seq<char>, src: Seq<char>)
    ensures
        valid_fsm_state(initial_of(k, sev, src).0),
        valid_owner(initial_of(k, sev, src).1),
{
}

/// The default owner of any state is a valid owner.
pub proof fn law_default_owner_is_valid(state: Seq<char>)
    ensures
        valid_owner(default_owner_of(state)),
{
}

/// Only the terminal states close an item; every other state leaves it open.
pub proof fn law_only_terminal_states_close(state: Seq<char>)
    ensures
        state != fsm::RESOLVED@ && state != fsm::DISMISSED@ ==> status_of(state) == "open"@,
        state == fsm::RESOLVED@ ==> status_of(state) == "resolved"@,
        state == fsm::DISMISSED@ ==> status_of(state) == "dismissed"@,
{
}

} // verus!
