use stocks::allocator::{allocation_outcome, AllocationChecks};

fn checks() -> AllocationChecks {
    AllocationChecks {
        existing_status: Some("active".to_string()),
        is_reduction: false,
        target_positive: true,
        strategy_cap_exceeded: false,
        symbol_cap_exceeded: false,
        portfolio_cap_exceeded: false,
    }
}

#[test]
fn symbol_cap_excess_blocks_new_allocation() {
    // The symbol cap check (made by the caller on the summed amounts) reports the cap exceeded.
    let mut c = checks();
    c.existing_status = None;
    c.symbol_cap_exceeded = true;
    let decision = allocation_outcome(&c);
    assert!(!decision.allowed);
    assert!(decision.blocked_reasons.iter().any(|r| r == "symbol_allocation_cap_exceeded"));
}

#[test]
fn clean_resize_is_allowed() {
    let decision = allocation_outcome(&checks());
    assert!(decision.allowed);
    assert!(decision.blocked_reasons.is_empty());
}

#[test]
fn frozen_sleeve_blocks_increasing_allocation() {
    let mut c = checks();
    c.existing_status = Some("frozen".to_string());
    let decision = allocation_outcome(&c);
    assert!(!decision.allowed);
    assert_eq!(decision.blocked_reasons, vec!["sleeve_frozen".to_string()]);

    c.is_reduction = true;
    assert!(allocation_outcome(&c).allowed);
}

#[test]
fn closed_sleeve_may_only_be_empty() {
    let mut c = checks();
    c.existing_status = Some("closed".to_string());
    assert_eq!(allocation_outcome(&c).blocked_reasons, vec!["sleeve_closed".to_string()]);
    c.target_positive = false;
    assert!(allocation_outcome(&c).allowed);
}

#[test]
fn cap_reasons_are_sorted() {
    let mut c = checks();
    c.strategy_cap_exceeded = true;
    c.symbol_cap_exceeded = true;
    c.portfolio_cap_exceeded = true;
    c.existing_status = Some("frozen".to_string());
    assert_eq!(
        allocation_outcome(&c).blocked_reasons,
        vec![
            "portfolio_allocation_cap_exceeded".to_string(),
            "sleeve_frozen".to_string(),
            "strategy_allocation_cap_exceeded".to_string(),
            "symbol_allocation_cap_exceeded".to_string(),
        ]
    );
}
