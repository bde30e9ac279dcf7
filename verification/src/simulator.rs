//! The decisions of the digital broker simulator: which order legs move a
//! position to its target, what each leg does at the broker, and which
//! incident (if any) stops a reconciliation.
//!
//! Quantities and prices stay with the caller; the leg plan reads only the
//! outcome of comparing the current and target quantities.

use vstd::prelude::*;
use crate::strategy::TargetSide;
use crate::text::{owned, append, append_string, append_int, int_text};

verus! {

#[derive(Clone, Copy, Debug, PartialEq, Eq, Structural)]
pub enum SimulatedFault {
    NoFault,
    Reject,
    Disconnect,
    StaleSnapshot,
    UnknownOrderStatus,
}

impl Default for SimulatedFault {
    fn default() -> (r: Self)
        ensures
            r == SimulatedFault::NoFault,
    {
        SimulatedFault::NoFault
    }
}

#[derive(Clone, Debug)]
pub struct SimulatedIncident {
    pub severity: String,
    pub kind: String,
    pub title: String,
    pub detail: String,
}

/// What an order leg does to the position.
#[derive(Clone, Copy, Debug, PartialEq, Eq, Structural)]
pub enum LegKind {
    Enter,
    Increase,
    Reduce,
    Exit,
}

/// The quantity an order leg trades, in terms of the current and target
/// quantities of the position.
#[derive(Clone, Copy, Debug, PartialEq, Eq, Structural)]
pub enum LegQuantity {
    Current,
    Target,
    TargetMinusCurrent,
    CurrentMinusTarget,
}

#[derive(Clone, Copy, Debug, PartialEq, Eq, Structural)]
pub struct OrderLeg {
    pub side: TargetSide,
    pub kind: LegKind,
    pub quantity: LegQuantity,
}

pub open spec fn leg(side: TargetSide, kind: LegKind, quantity: LegQuantity) -> OrderLeg {
    OrderLeg { side, kind, quantity }
}

/// The legs that take a position on `current` to `target`. `same_quantity`:
/// the two quantities agree within a millionth; `target_above`: the target
/// quantity is the larger.
pub open spec fn planned_legs(
    current: TargetSide,
    target: TargetSide,
    same_quantity: bool,
    target_above: bool,
) -> Seq<OrderLeg> {
    if target == TargetSide::Flat {
        if current == TargetSide::Flat {
            seq![]
        } else {
            seq![leg(current, LegKind::Exit, LegQuantity::Current)]
        }
    } else if current == TargetSide::Flat {
        seq![leg(target, LegKind::Enter, LegQuantity::Target)]
    } else if current == target {
        if same_quantity {
            seq![]
        } else if target_above {
            seq![leg(target, LegKind::Increase, LegQuantity::TargetMinusCurrent)]
        } else {
            seq![leg(target, LegKind::Reduce, LegQuantity::CurrentMinusTarget)]
        }
    } else {
        seq![
            leg(current, LegKind::Exit, LegQuantity::Current),
            leg(target, LegKind::Enter, LegQuantity::Target),
        ]
    }
}

pub open spec fn leg_kind_text(k: LegKind) -> Seq<char> {
    match k {
        LegKind::Enter => "enter"@,
        LegKind::Increase => "increase"@,
        LegKind::Reduce => "reduce"@,
        LegKind::Exit => "exit"@,
    }
}

/// The broker action of a leg.
pub open spec fn action_text(side: TargetSide, kind: LegKind) -> Seq<char> {
    match side {
        TargetSide::Long => match kind {
            LegKind::Enter | LegKind::Increase => "buy"@,
            LegKind::Reduce | LegKind::Exit => "sell"@,
        },
        TargetSide::Short => match kind {
            LegKind::Enter | LegKind::Increase => "sell_short"@,
            LegKind::Reduce | LegKind::Exit => "buy_to_cover"@,
        },
        TargetSide::Flat => "none"@,
    }
}

impl LegKind {
    pub fn as_str(self) -> (r: &'static str)
        ensures
            r@ == leg_kind_text(self),
    {
        match self {
            LegKind::Enter => "enter",
            LegKind::Increase => "increase",
            LegKind::Reduce => "reduce",
            LegKind::Exit => "exit",
        }
    }

    /// Whether the leg opens or adds to a position (and so carries a bracket).
    pub fn opens(self) -> (r: bool)
        ensures
            r == (self == LegKind::Enter || self == LegKind::Increase),
    {
        match self {
            LegKind::Enter | LegKind::Increase => true,
            _ => false,
        }
    }
}

/// The order legs that move a position on `current` to `target`.
pub fn build_legs(current: TargetSide, target: TargetSide, same_quantity: bool, target_above: bool) -> (r: Vec<OrderLeg>)
    ensures
        r@ == planned_legs(current, target, same_quantity, target_above),
{
    let mut legs: Vec<OrderLeg> = Vec::new();
    if target == TargetSide::Flat {
        if current != TargetSide::Flat {
            legs.push(OrderLeg { side: current, kind: LegKind::Exit, quantity: LegQuantity::Current });
        }
    } else if current == TargetSide::Flat {
        legs.push(OrderLeg { side: target, kind: LegKind::Enter, quantity: LegQuantity::Target });
    } else if current == target {
        if !same_quantity {
            if target_above {
                legs.push(OrderLeg { side: target, kind: LegKind::Increase, quantity: LegQuantity::TargetMinusCurrent });
            } else {
                legs.push(OrderLeg { side: target, kind: LegKind::Reduce, quantity: LegQuantity::CurrentMinusTarget });
            }
        }
    } else {
        legs.push(OrderLeg { side: current, kind: LegKind::Exit, quantity: LegQuantity::Current });
        legs.push(OrderLeg { side: target, kind: LegKind::Enter, quantity: LegQuantity::Target });
    }
    assert(legs@ =~= planned_legs(current, target, same_quantity, target_above));
    legs
}

/// The broker action of an order leg: buy, sell, sell_short or buy_to_cover.
pub fn order_action(side: TargetSide, kind: LegKind) -> (r: &'static str)
    ensures
        r@ == action_text(side, kind),
{
    match side {
        TargetSide::Long => match kind {
            LegKind::Enter | LegKind::Increase => "buy",
            LegKind::Reduce | LegKind::Exit => "sell",
        },
        TargetSide::Short => match kind {
            LegKind::Enter | LegKind::Increase => "sell_short",
            LegKind::Reduce | LegKind::Exit => "buy_to_cover",
        },
        TargetSide::Flat => "none",
    }
}

/// An incident as (severity, kind, title, detail).
pub type IncidentText = (Seq<char>, Seq<char>, Seq<char>, Seq<char>);

pub open spec fn stale_snapshot(now: i64, last_seen: Option<i64>, max_age_secs: i64) -> bool {
    match last_seen {
        Some(seen) => now - seen > (if max_age_secs < 0 { 0 } else { max_age_secs as int }),
        None => false,
    }
}

/// The incident that the simulated broker raises, if any.
pub open spec fn incident_spec(
    symbol: Seq<char>,
    fault: SimulatedFault,
    prior_reject_count: u32,
    max_snapshot_age_secs: i64,
    last_seen: Option<i64>,
    now: i64,
) -> Option<IncidentText> {
    if stale_snapshot(now, last_seen, max_snapshot_age_secs) {
        Some((
            "warning"@,
            "stale_broker_data"@,
            "Simulated broker snapshot is stale"@,
            "Latest simulated broker snapshot for "@ + symbol + " is older than "@ + int_text(
                max_snapshot_age_secs as int,
            ) + " seconds."@,
        ))
    } else {
        match fault {
            SimulatedFault::NoFault => None,
            SimulatedFault::StaleSnapshot => Some((
                "warning"@,
                "stale_broker_data"@,
                "Simulated broker snapshot is stale"@,
                "Digital broker was configured with stale state for "@ + symbol + "."@,
            )),
            SimulatedFault::Reject => if prior_reject_count > 0 {
                Some((
                    "critical"@,
                    "repeated_order_reject"@,
                    "Repeated simulated order reject"@,
                    "Digital broker rejected the simulated order for "@ + symbol + "."@,
                ))
            } else {
                Some((
                    "warning"@,
                    "order_rejected"@,
                    "Simulated order rejected"@,
                    "Digital broker rejected the simulated order for "@ + symbol + "."@,
                ))
            },
            SimulatedFault::Disconnect => Some((
                "critical"@,
                "broker_disconnect"@,
                "Simulated broker disconnected"@,
                "Digital broker is disconnected for "@ + symbol + "."@,
            )),
            SimulatedFault::UnknownOrderStatus => Some((
                "warning"@,
                "unknown_order_status"@,
                "Simulated order status unknown"@,
                "Digital broker returned an unknown order status for "@ + symbol + "."@,
            )),
        }
    }
}

pub open spec fn incident_view(i: SimulatedIncident) -> IncidentText {
    (i.severity@, i.kind@, i.title@, i.detail@)
}

fn incident(severity: &str, kind: &str, title: &str, lead: &str, symbol: &String, tail: &str) -> (r: SimulatedIncident)
    ensures
        incident_view(r) == (severity@, kind@, title@, lead@ + symbol@ + tail@),
{
    let mut detail = owned(lead);
    append_string(&mut detail, symbol);
    append(&mut detail, tail);
    SimulatedIncident { severity: owned(severity), kind: owned(kind), title: owned(title), detail }
}

/// The incident that stops a simulated reconciliation: a broker snapshot
/// older than the allowed age (seconds, below zero read as zero) comes
/// first, then the configured fault.
pub fn simulated_incident(
    symbol: &String,
    fault: SimulatedFault,
    prior_reject_count: u32,
    max_snapshot_age_secs: i64,
    broker_last_seen_at: Option<i64>,
    now: i64,
) -> (r: Option<SimulatedIncident>)
    ensures
        match (r, incident_spec(symbol@, fault, prior_reject_count, max_snapshot_age_secs, broker_last_seen_at, now)) {
            (Some(i), Some(t)) => incident_view(i) == t,
            (None, None) => true,
            _ => false,
        },
{
    if let Some(seen_at) = broker_last_seen_at {
        let age: i128 = (now as i128) - (seen_at as i128);
        let limit: i128 = if max_snapshot_age_secs < 0 { 0 } else { max_snapshot_age_secs as i128 };
        if age > limit {
            let mut detail = owned("Latest simulated broker snapshot for ");
            append_string(&mut detail, symbol);
            append(&mut detail, " is older than ");
            append_int(&mut detail, max_snapshot_age_secs);
            append(&mut detail, " seconds.");
            return Some(SimulatedIncident {
                severity: owned("warning"),
                kind: owned("stale_broker_data"),
                title: owned("Simulated broker snapshot is stale"),
                detail,
            });
        }
    }
    match fault {
        SimulatedFault::NoFault => None,
        SimulatedFault::StaleSnapshot => Some(
            incident(
                "warning",
                "stale_broker_data",
                "Simulated broker snapshot is stale",
                "Digital broker was configured with stale state for ",
                symbol,
                ".",
            ),
        ),
        SimulatedFault::Reject => {
            if prior_reject_count > 0 {
                Some(
                    incident(
                        "critical",
                        "repeated_order_reject",
                        "Repeated simulated order reject",
                        "Digital broker rejected the simulated order for ",
                        symbol,
                        ".",
                    ),
                )
            } else {
                Some(
                    incident(
                        "warning",
                        "order_rejected",
                        "Simulated order rejected",
                        "Digital broker rejected the simulated order for ",
                        symbol,
                        ".",
                    ),
                )
            }
        },
        SimulatedFault::Disconnect => Some(
            incident(
                "critical",
                "broker_disconnect",
                "Simulated broker disconnected",
                "Digital broker is disconnected for ",
                symbol,
                ".",
            ),
        ),
        SimulatedFault::UnknownOrderStatus => Some(
            incident(
                "warning",
                "unknown_order_status",
                "Simulated order status unknown",
                "Digital broker returned an unknown order status for ",
                symbol,
                ".",
            ),
        ),
    }
}

// ------------------------------------------------------------------ laws

/// A target that matches the current position needs no order.
pub proof fn law_matching_target_needs_no_legs(side: TargetSide, target_above: bool)
    ensures
        planned_legs(side, side, true, target_above).len() == 0,
        planned_legs(TargetSide::Flat, TargetSide::Flat, true, target_above).len() == 0,
        planned_legs(TargetSide::Flat, TargetSide::Flat, false, target_above).len() == 0,
{
}

/// A flat target exits the whole current position in one leg.
pub proof fn law_flat_target_exits_everything(current: TargetSide, same_quantity: bool, target_above: bool)
    requires
        current != TargetSide::Flat,
    ensures
        planned_legs(current, TargetSide::Flat, same_quantity, target_above) == seq![
            leg(current, LegKind::Exit, LegQuantity::Current),
        ],
{
}

/// Flipping sides first exits the whole position, then enters the target in full.
pub proof fn law_flip_exits_then_enters(current: TargetSide, target: TargetSide, same_quantity: bool, target_above: bool)
    requires
        current != TargetSide::Flat,
        target != TargetSide::Flat,
        current != target,
    ensures
        planned_legs(current, target, same_quantity, target_above) == seq![
            leg(current, LegKind::Exit, LegQuantity::Current),
            leg(target, LegKind::Enter, LegQuantity::Target),
        ],
{
}

/// Every planned leg trades a long or short position, so each has a broker action.
pub proof fn law_legs_name_a_side(current: TargetSide, target: TargetSide, same_quantity: bool, target_above: bool)
    ensures
        forall|i: int| 0 <= i < planned_legs(current, target, same_quantity, target_above).len()
            ==> #[trigger] planned_legs(current, target, same_quantity, target_above)[i].side != TargetSide::Flat,
        planned_legs(current, target, same_quantity, target_above).len() <= 2,
{
}

} // verus!
