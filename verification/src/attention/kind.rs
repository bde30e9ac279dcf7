//! Attention kinds (the values the attention table accepts).

use vstd::prelude::*;

verus! {

pub const CANDIDATE_REVIEW: &'static str = "candidate_review";

pub const CONTEXT_STALE: &'static str = "context_stale";

pub const THESIS_INCOMPLETE: &'static str = "thesis_incomplete";

pub const THESIS_REVIEW: &'static str = "thesis_review";

pub const THESIS_ACTIONABLE: &'static str = "thesis_actionable";

pub const RISK_REVIEW: &'static str = "risk_review";

pub const INVALIDATION_HIT: &'static str = "invalidation_hit";

pub const OUTCOME_READY: &'static str = "outcome_ready";

} // verus!
