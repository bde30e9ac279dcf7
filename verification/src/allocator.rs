//! Whether a sleeve may move to a target allocation, from the outcome of
//! its cap checks and the state of the sleeve it resizes.

use vstd::prelude::*;
use crate::order::{lemma_sorted_enum_exists, sort_dedup, sorted_enum, views, reason_if, push_when};
use crate::text::str_eq;

verus! {

/// What the allocation gate reads: the status of the sleeve being resized
/// (none for a new one), whether the target reduces it, whether the target
/// is above zero, and which caps the proposal would exceed.
#[derive(Clone, Debug)]
pub struct AllocationChecks {
    pub existing_status: Option<String>,
    pub is_reduction: bool,
    pub target_positive: bool,
    pub strategy_cap_exceeded: bool,
    pub symbol_cap_exceeded: bool,
    pub portfolio_cap_exceeded: bool,
}

#[derive(Clone, Debug)]
pub struct AllocationOutcome {
    pub allowed: bool,
    pub blocked_reasons: Vec<String>,
}

/// A frozen sleeve may only shrink; a closed one may not hold anything.
pub open spec fn allocation_blockers(c: AllocationChecks) -> Set<Seq<char>> {
    reason_if(
        c.existing_status matches Some(s) && s@ == "frozen"@ && !c.is_reduction,
        "sleeve_frozen"@,
    ) + reason_if(
        c.existing_status matches Some(s) && s@ == "closed"@ && c.target_positive,
        "sleeve_closed"@,
    ) + reason_if(c.strategy_cap_exceeded, "strategy_allocation_cap_exceeded"@) + reason_if(
        c.symbol_cap_exceeded,
        "symbol_allocation_cap_exceeded"@,
    ) + reason_if(c.portfolio_cap_exceeded, "portfolio_allocation_cap_exceeded"@)
}

/// The allocation decision: allowed exactly when nothing blocks it, with
/// the blocking reasons sorted and without repeats.
pub fn allocation_outcome(checks: &AllocationChecks) -> (r: AllocationOutcome)
    ensures
        views(r.blocked_reasons@) == sorted_enum(allocation_blockers(*checks)),
        r.allowed == allocation_blockers(*checks).is_empty(),
{
    let (frozen, closed) = match &checks.existing_status {
        Some(s) => (str_eq(s.as_str(), "frozen"), str_eq(s.as_str(), "closed")),
        None => (false, false),
    };
    let mut v: Vec<String> = Vec::new();
    assert(views(v@).to_set() =~= Set::empty());
    push_when(&mut v, frozen && !checks.is_reduction, "sleeve_frozen");
    push_when(&mut v, closed && checks.target_positive, "sleeve_closed");
    push_when(&mut v, checks.strategy_cap_exceeded, "strategy_allocation_cap_exceeded");
    push_when(&mut v, checks.symbol_cap_exceeded, "symbol_allocation_cap_exceeded");
    push_when(&mut v, checks.portfolio_cap_exceeded, "portfolio_allocation_cap_exceeded");
    assert(views(v@).to_set() =~= allocation_blockers(*checks));
    let blocked_reasons = sort_dedup(v);
    let allowed = blocked_reasons.len() == 0;
    AllocationOutcome { allowed, blocked_reasons }
}

/// Each blocking condition blocks the allocation with its own reason, new
/// sleeve or not, and no reason appears without its condition: a frozen
/// sleeve may only shrink, a closed one may hold nothing, and each exceeded
/// cap blocks.
pub proof fn law_allocation_reasons(c: AllocationChecks)
    ensures
        allocation_blockers(c).contains("sleeve_frozen"@) <==> (c.existing_status matches Some(s) && s@
            == "frozen"@ && !c.is_reduction),
        allocation_blockers(c).contains("sleeve_closed"@) <==> (c.existing_status matches Some(s) && s@
            == "closed"@ && c.target_positive),
        allocation_blockers(c).contains("strategy_allocation_cap_exceeded"@) <==> c.strategy_cap_exceeded,
        allocation_blockers(c).contains("symbol_allocation_cap_exceeded"@) <==> c.symbol_cap_exceeded,
        allocation_blockers(c).contains("portfolio_allocation_cap_exceeded"@) <==> c.portfolio_cap_exceeded,
        allocation_blockers(c).is_empty() <==> !((c.existing_status matches Some(s) && s@ == "frozen"@
            && !c.is_reduction) || (c.existing_status matches Some(s) && s@ == "closed"@
            && c.target_positive) || c.strategy_cap_exceeded || c.symbol_cap_exceeded
            || c.portfolio_cap_exceeded),
        allocation_blockers(c).finite(),
{
    broadcast use vstd::set::group_set_axioms;
    reveal(reason_if);
    reveal_strlit("sleeve_frozen");
    reveal_strlit("sleeve_closed");
    reveal_strlit("strategy_allocation_cap_exceeded");
    reveal_strlit("symbol_allocation_cap_exceeded");
    reveal_strlit("portfolio_allocation_cap_exceeded");
    assert("sleeve_frozen"@[7] == 'f' && "sleeve_closed"@[7] == 'c');
    assert("strategy_allocation_cap_exceeded"@[1] == 't' && "symbol_allocation_cap_exceeded"@[1] == 'y');
    assert("portfolio_allocation_cap_exceeded"@[0] == 'p' && "sleeve_frozen"@[0] == 's');
    assert("strategy_allocation_cap_exceeded"@[0] == 's' && "symbol_allocation_cap_exceeded"@[0] == 's');
    let b = allocation_blockers(c);
    if !b.is_empty() {
        let x = b.choose();
        assert(b.contains(x));
    }
}

/// When the strategy cap is exceeded the allocation is refused, and its
/// listed reasons name that cap, whether or not the sleeve exists.
pub proof fn law_strategy_cap_blocks(c: AllocationChecks)
    requires
        c.strategy_cap_exceeded,
    ensures
        !allocation_blockers(c).is_empty(),
        sorted_enum(allocation_blockers(c)).contains("strategy_allocation_cap_exceeded"@),
{
    law_allocation_reasons(c);
    let b = allocation_blockers(c);
    lemma_sorted_enum_exists(b);
    assert(b.contains("strategy_allocation_cap_exceeded"@));
    assert(sorted_enum(b).to_set().contains("strategy_allocation_cap_exceeded"@));
}

} // verus!
