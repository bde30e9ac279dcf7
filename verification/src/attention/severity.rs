//! Severity tiers.

use vstd::prelude::*;

verus! {

pub const INFO: &'static str = "info";

pub const REVIEW: &'static str = "review";

pub const DECISION: &'static str = "decision";

pub const BLOCKED: &'static str = "blocked";

} // verus!
