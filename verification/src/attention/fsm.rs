//! Operational states of an attention item.

use vstd::prelude::*;

verus! {

pub const QUEUED: &'static str = "queued";

pub const EVALUATING: &'static str = "evaluating";

pub const WAITING_ON_DATA: &'static str = "waiting_on_data";

pub const READY_FOR_REVIEW: &'static str = "ready_for_review";

pub const OPERATOR_DEFERRED: &'static str = "operator_deferred";

pub const ACTIONABLE: &'static str = "actionable";

pub const RESOLVED: &'static str = "resolved";

pub const DISMISSED: &'static str = "dismissed";

pub const BLOCKED: &'static str = "blocked";

} // verus!
