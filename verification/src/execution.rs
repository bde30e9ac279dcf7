//! Which sides and instruments a manual fill may carry.

use vstd::prelude::*;
use crate::text::{matches_any, one_of, strs};

verus! {

pub open spec fn fill_sides() -> Seq<Seq<char>> {
    seq!["long"@, "short"@, "call"@, "put"@, "hedge"@]
}

pub open spec fn fill_instruments() -> Seq<Seq<char>> {
    seq!["equity"@, "leaps"@, "options"@]
}

/// Whether a fill side is one the book records.
pub fn allowed_side(side: &str) -> (r: bool)
    ensures
        r == one_of(side@, fill_sides()),
{
    let options: Vec<&str> = vec!["long", "short", "call", "put", "hedge"];
    assert(strs(options@) =~= fill_sides());
    matches_any(side, &options)
}

/// Whether an instrument is one the book records.
pub fn allowed_instrument(instrument: &str) -> (r: bool)
    ensures
        r == one_of(instrument@, fill_instruments()),
{
    let options: Vec<&str> = vec!["equity", "leaps", "options"];
    assert(strs(options@) =~= fill_instruments());
    matches_any(instrument, &options)
}

} // verus!
