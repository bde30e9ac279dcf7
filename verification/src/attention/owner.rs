//! Labels of who currently owns an attention item.

use vstd::prelude::*;

verus! {

pub const SYSTEM: &'static str = "system";

pub const OPERATOR: &'static str = "operator";

pub const SOURCE: &'static str = "source";

pub const COGNITION: &'static str = "cognition";

pub const RISK: &'static str = "risk";

} // verus!
