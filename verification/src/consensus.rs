//! Consensus measurement rules that do not depend on scores.

use vstd::prelude::*;

verus! {

/// At least three articles in the last fourteen days count as recent news.
pub fn recent_news_fresh_enough(article_count_14d: u32) -> (r: bool)
    ensures
        r == (article_count_14d >= 3),
{
    article_count_14d >= 3
}

/// The lifecycle event that a consensus crossing publishes for an open thesis.
#[derive(Clone, Copy, Debug, PartialEq, Eq, Structural)]
pub enum ThesisTopic {
    Updated,
    Fulfilled,
}

pub open spec fn topic_subject(t: ThesisTopic) -> Seq<char> {
    match t {
        ThesisTopic::Updated => "thesis.updated"@,
        ThesisTopic::Fulfilled => "thesis.fulfilled"@,
    }
}

impl ThesisTopic {
    /// The bus subject of the event.
    pub fn subject(self) -> (r: &'static str)
        ensures
            r@ == topic_subject(self),
    {
        match self {
            ThesisTopic::Updated => "thesis.updated",
            ThesisTopic::Fulfilled => "thesis.fulfilled",
        }
    }
}

/// A crossing emits a thesis event only when the symbol has an open thesis:
/// fulfilled when the exit threshold was just crossed, updated otherwise.
pub fn thesis_crossing_topic(has_open_thesis: bool, exit_just_crossed: bool) -> (r: Option<ThesisTopic>)
    ensures
        r == (if !has_open_thesis {
            None
        } else if exit_just_crossed {
            Some(ThesisTopic::Fulfilled)
        } else {
            Some(ThesisTopic::Updated)
        }),
{
    if !has_open_thesis {
        return None;
    }
    Some(if exit_just_crossed { ThesisTopic::Fulfilled } else { ThesisTopic::Updated })
}

} // verus!
