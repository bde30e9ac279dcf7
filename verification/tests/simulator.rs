use stocks::simulator::{
    build_legs, order_action, simulated_incident, LegKind, LegQuantity, OrderLeg, SimulatedFault,
};
use stocks::strategy::TargetSide;

fn leg(side: TargetSide, kind: LegKind, quantity: LegQuantity) -> OrderLeg {
    OrderLeg { side, kind, quantity }
}

#[test]
fn target_matching_current_position_needs_no_order() {
    assert!(build_legs(TargetSide::Long, TargetSide::Long, true, false).is_empty());
    assert!(build_legs(TargetSide::Flat, TargetSide::Flat, false, true).is_empty());
}

#[test]
fn entering_from_flat_buys_the_whole_target() {
    let legs = build_legs(TargetSide::Flat, TargetSide::Long, false, true);
    assert_eq!(legs, vec![leg(TargetSide::Long, LegKind::Enter, LegQuantity::Target)]);
    assert_eq!(order_action(TargetSide::Long, LegKind::Enter), "buy");
}

#[test]
fn resizing_increases_or_reduces_by_the_difference() {
    assert_eq!(
        build_legs(TargetSide::Long, TargetSide::Long, false, true),
        vec![leg(TargetSide::Long, LegKind::Increase, LegQuantity::TargetMinusCurrent)]
    );
    assert_eq!(
        build_legs(TargetSide::Short, TargetSide::Short, false, false),
        vec![leg(TargetSide::Short, LegKind::Reduce, LegQuantity::CurrentMinusTarget)]
    );
}

#[test]
fn flat_target_exits_and_flip_exits_then_enters() {
    assert_eq!(
        build_legs(TargetSide::Long, TargetSide::Flat, false, false),
        vec![leg(TargetSide::Long, LegKind::Exit, LegQuantity::Current)]
    );
    assert_eq!(
        build_legs(TargetSide::Long, TargetSide::Short, false, false),
        vec![
            leg(TargetSide::Long, LegKind::Exit, LegQuantity::Current),
            leg(TargetSide::Short, LegKind::Enter, LegQuantity::Target),
        ]
    );
}

#[test]
fn broker_actions_follow_side_and_leg() {
    assert_eq!(order_action(TargetSide::Long, LegKind::Increase), "buy");
    assert_eq!(order_action(TargetSide::Long, LegKind::Reduce), "sell");
    assert_eq!(order_action(TargetSide::Long, LegKind::Exit), "sell");
    assert_eq!(order_action(TargetSide::Short, LegKind::Enter), "sell_short");
    assert_eq!(order_action(TargetSide::Short, LegKind::Exit), "buy_to_cover");
    assert_eq!(order_action(TargetSide::Flat, LegKind::Enter), "none");
    assert_eq!(LegKind::Reduce.as_str(), "reduce");
    assert!(LegKind::Increase.opens());
    assert!(!LegKind::Exit.opens());
}

#[test]
fn reject_and_disconnect_raise_incidents() {
    let symbol = "NVDA".to_string();
    let reject = simulated_incident(&symbol, SimulatedFault::Reject, 0, 120, None, 1_000).unwrap();
    assert_eq!(reject.severity, "warning");
    assert_eq!(reject.kind, "order_rejected");
    assert_eq!(reject.detail, "Digital broker rejected the simulated order for NVDA.");

    let repeated = simulated_incident(&symbol, SimulatedFault::Reject, 2, 120, None, 1_000).unwrap();
    assert_eq!(repeated.severity, "critical");
    assert_eq!(repeated.kind, "repeated_order_reject");
    assert_eq!(repeated.title, "Repeated simulated order reject");

    let disconnect = simulated_incident(&symbol, SimulatedFault::Disconnect, 0, 120, None, 1_000).unwrap();
    assert_eq!(disconnect.severity, "critical");
    assert_eq!(disconnect.kind, "broker_disconnect");
}

#[test]
fn stale_and_unknown_broker_state_raise_incidents() {
    let symbol = "AMD".to_string();
    let stale = simulated_incident(&symbol, SimulatedFault::NoFault, 0, 120, Some(1_000), 1_121).unwrap();
    assert_eq!(stale.kind, "stale_broker_data");
    assert_eq!(
        stale.detail,
        "Latest simulated broker snapshot for AMD is older than 120 seconds."
    );
    assert!(simulated_incident(&symbol, SimulatedFault::NoFault, 0, 120, Some(1_000), 1_120).is_none());

    let configured = simulated_incident(&symbol, SimulatedFault::StaleSnapshot, 0, 120, None, 0).unwrap();
    assert_eq!(configured.detail, "Digital broker was configured with stale state for AMD.");

    let unknown = simulated_incident(&symbol, SimulatedFault::UnknownOrderStatus, 0, 120, None, 0).unwrap();
    assert_eq!(unknown.kind, "unknown_order_status");
    assert_eq!(unknown.title, "Simulated order status unknown");
}

#[test]
fn negative_snapshot_age_limits_read_as_zero() {
    let symbol = "MU".to_string();
    let stale = simulated_incident(&symbol, SimulatedFault::Reject, 0, -5, Some(10), 11).unwrap();
    assert_eq!(stale.kind, "stale_broker_data");
    assert_eq!(
        stale.detail,
        "Latest simulated broker snapshot for MU is older than -5 seconds."
    );
    assert!(simulated_incident(&symbol, SimulatedFault::NoFault, 0, -5, Some(10), 10).is_none());
    assert_eq!(SimulatedFault::default(), SimulatedFault::NoFault);
}
