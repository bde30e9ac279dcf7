//! Where an attention item came from in the pipeline.

use vstd::prelude::*;

verus! {

pub const DISCOVERY: &'static str = "discovery";

pub const THESIS: &'static str = "thesis";

pub const RISK: &'static str = "risk";

pub const CONTEXT: &'static str = "context";

pub const CONSENSUS: &'static str = "consensus";

pub const REFLECTION: &'static str = "reflection";

pub const SYSTEM: &'static str = "system";

} // verus!
