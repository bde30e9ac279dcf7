//! Names and operator-facing wording of discovery interpretations and signals.

use vstd::prelude::*;
use crate::text::str_eq;

verus! {

/// What a combination of discovery signals likely means.
#[derive(Clone, Copy, Debug, PartialEq, Eq, Structural)]
pub enum DiscoveryInterpretationKind {
    EarlyAccumulation,
    BreakoutConfirmation,
    ExtendedMomentum,
    ConsensusArrival,
    PossibleExhaustion,
    ExistingThesisTrigger,
    LowQualityNoise,
}

pub open spec fn interpretation_name(k: DiscoveryInterpretationKind) -> Seq<char> {
    match k {
        DiscoveryInterpretationKind::EarlyAccumulation => "early_accumulation"@,
        DiscoveryInterpretationKind::BreakoutConfirmation => "breakout_confirmation"@,
        DiscoveryInterpretationKind::ExtendedMomentum => "extended_momentum"@,
        DiscoveryInterpretationKind::ConsensusArrival => "consensus_arrival"@,
        DiscoveryInterpretationKind::PossibleExhaustion => "possible_exhaustion"@,
        DiscoveryInterpretationKind::ExistingThesisTrigger => "existing_thesis_trigger"@,
        DiscoveryInterpretationKind::LowQualityNoise => "low_quality_noise"@,
    }
}

impl DiscoveryInterpretationKind {
    /// The signal name under which the interpretation is recorded.
    pub fn signal_name(self) -> (r: &'static str)
        ensures
            r@ == interpretation_name(self),
    {
        match self {
            DiscoveryInterpretationKind::EarlyAccumulation => "early_accumulation",
            DiscoveryInterpretationKind::BreakoutConfirmation => "breakout_confirmation",
            DiscoveryInterpretationKind::ExtendedMomentum => "extended_momentum",
            DiscoveryInterpretationKind::ConsensusArrival => "consensus_arrival",
            DiscoveryInterpretationKind::PossibleExhaustion => "possible_exhaustion",
            DiscoveryInterpretationKind::ExistingThesisTrigger => "existing_thesis_trigger",
            DiscoveryInterpretationKind::LowQualityNoise => "low_quality_noise",
        }
    }
}

/// The words that explain a raw discovery signal to the operator.
pub open spec fn signal_reason_text(signal_name: Seq<char>) -> Seq<char> {
    if signal_name == "estimate_revision_velocity"@ {
        "estimate revisions"@
    } else if signal_name == "base_breakout"@ {
        "base breakout"@
    } else if signal_name == "news_sentiment_shift"@ {
        "news sentiment shift"@
    } else if signal_name == "research_nomination"@ {
        "research nomination"@
    } else if signal_name == "volume_anomaly"@ {
        "volume anomaly"@
    } else {
        "discovery signal"@
    }
}

pub fn signal_reason(signal_name: &str) -> (r: &'static str)
    ensures
        r@ == signal_reason_text(signal_name@),
{
    if str_eq(signal_name, "estimate_revision_velocity") {
        "estimate revisions"
    } else if str_eq(signal_name, "base_breakout") {
        "base breakout"
    } else if str_eq(signal_name, "news_sentiment_shift") {
        "news sentiment shift"
    } else if str_eq(signal_name, "research_nomination") {
        "research nomination"
    } else if str_eq(signal_name, "volume_anomaly") {
        "volume anomaly"
    } else {
        "discovery signal"
    }
}

/// The sign of a signal's value (a value that is neither below nor above
/// zero counts as zero).
#[derive(Clone, Copy, Debug, PartialEq, Eq, Structural)]
pub enum ValueSign {
    Negative,
    Zero,
    Positive,
}

/// What the interpretation reads of one raw signal hit.
#[derive(Clone, Debug)]
pub struct HitView {
    pub signal_name: String,
    pub sign: ValueSign,
}

/// How stretched the price is: whether the extension score is at least
/// 60, and the outcome of the high and low-or-mid extension tests.
#[derive(Clone, Copy, Debug, PartialEq, Eq, Structural)]
pub struct ExtensionClass {
    pub raw_at_least_60: bool,
    pub is_high: bool,
    pub is_low_or_mid: bool,
}

/// The sign of the first hit with the given name.
pub open spec fn first_sign(hits: Seq<HitView>, name: Seq<char>) -> Option<ValueSign>
    decreases hits.len(),
{
    if hits.len() == 0 {
        None
    } else if hits[0].signal_name@ == name {
        Some(hits[0].sign)
    } else {
        first_sign(hits.drop_first(), name)
    }
}

pub open spec fn has_hit(hits: Seq<HitView>, name: Seq<char>) -> bool {
    first_sign(hits, name) is Some
}

pub open spec fn sign_is(s: Option<ValueSign>, v: ValueSign) -> bool {
    s == Some(v)
}

/// What a set of raw hits on a symbol likely means; `None` when there is no
/// hit, when the symbol is already active without an actionable thesis, or
/// when the hits are low-quality noise.
pub open spec fn interpretation(
    hits: Seq<HitView>,
    extension: Option<ExtensionClass>,
    has_open_thesis: bool,
    has_actionable_thesis: bool,
    is_active_ticker: bool,
) -> Option<DiscoveryInterpretationKind> {
    let volume = has_hit(hits, "volume_anomaly"@);
    let estimate = first_sign(hits, "estimate_revision_velocity"@);
    let sentiment = first_sign(hits, "news_sentiment_shift"@);
    let breakout = has_hit(hits, "base_breakout"@);
    let negative = sign_is(estimate, ValueSign::Negative) || sign_is(sentiment, ValueSign::Negative);
    let positive = sign_is(estimate, ValueSign::Positive) || sign_is(sentiment, ValueSign::Positive);
    let kind = if has_actionable_thesis {
        DiscoveryInterpretationKind::ExistingThesisTrigger
    } else if negative && (extension matches Some(e) && e.raw_at_least_60) {
        DiscoveryInterpretationKind::PossibleExhaustion
    } else if breakout && (extension matches Some(e) ==> e.is_low_or_mid) {
        DiscoveryInterpretationKind::BreakoutConfirmation
    } else if volume && (extension matches Some(e) && e.is_high) {
        if positive || has_open_thesis {
            DiscoveryInterpretationKind::ConsensusArrival
        } else {
            DiscoveryInterpretationKind::ExtendedMomentum
        }
    } else if volume && (extension matches Some(e) && e.is_low_or_mid) && (breakout || positive) {
        DiscoveryInterpretationKind::EarlyAccumulation
    } else if hits.len() == 1 && volume {
        DiscoveryInterpretationKind::LowQualityNoise
    } else {
        DiscoveryInterpretationKind::EarlyAccumulation
    };
    if hits.len() == 0 || (is_active_ticker && !has_actionable_thesis) || kind == DiscoveryInterpretationKind::LowQualityNoise {
        None
    } else {
        Some(kind)
    }
}

/// The sign of the first hit named `name`, if any.
pub fn first_hit_sign(hits: &Vec<HitView>, name: &str) -> (r: Option<ValueSign>)
    ensures
        r == first_sign(hits@, name@),
{
    let mut i: usize = 0;
    assert(hits@.subrange(0, hits@.len() as int) =~= hits@);
    while i < hits.len()
        invariant
            i <= hits@.len(),
            first_sign(hits@, name@) == first_sign(hits@.subrange(i as int, hits@.len() as int), name@),
        decreases hits.len() - i,
    {
        let ghost rest = hits@.subrange(i as int, hits@.len() as int);
        assert(rest.drop_first() =~= hits@.subrange(i + 1, hits@.len() as int));
        if str_eq(hits[i].signal_name.as_str(), name) {
            return Some(hits[i].sign);
        }
        i += 1;
    }
    None
}

/// The interpretation of a symbol's raw discovery hits.
pub fn interpret_signals(
    hits: &Vec<HitView>,
    extension: Option<ExtensionClass>,
    has_open_thesis: bool,
    has_actionable_thesis: bool,
    is_active_ticker: bool,
) -> (r: Option<DiscoveryInterpretationKind>)
    ensures
        r == interpretation(hits@, extension, has_open_thesis, has_actionable_thesis, is_active_ticker),
{
    if hits.len() == 0 {
        return None;
    }
    if is_active_ticker && !has_actionable_thesis {
        return None;
    }
    let volume = first_hit_sign(hits, "volume_anomaly").is_some();
    let estimate = first_hit_sign(hits, "estimate_revision_velocity");
    let sentiment = first_hit_sign(hits, "news_sentiment_shift");
    let breakout = first_hit_sign(hits, "base_breakout").is_some();
    let negative = estimate == Some(ValueSign::Negative) || sentiment == Some(ValueSign::Negative);
    let positive = estimate == Some(ValueSign::Positive) || sentiment == Some(ValueSign::Positive);
    let (ext_60, ext_high, ext_low_mid, ext_low_mid_or_none) = match extension {
        Some(e) => (e.raw_at_least_60, e.is_high, e.is_low_or_mid, e.is_low_or_mid),
        None => (false, false, false, true),
    };
    let kind = if has_actionable_thesis {
        DiscoveryInterpretationKind::ExistingThesisTrigger
    } else if negative && ext_60 {
        DiscoveryInterpretationKind::PossibleExhaustion
    } else if breakout && ext_low_mid_or_none {
        DiscoveryInterpretationKind::BreakoutConfirmation
    } else if volume && ext_high {
        if positive || has_open_thesis {
            DiscoveryInterpretationKind::ConsensusArrival
        } else {
            DiscoveryInterpretationKind::ExtendedMomentum
        }
    } else if volume && ext_low_mid && (breakout || positive) {
        DiscoveryInterpretationKind::EarlyAccumulation
    } else if hits.len() == 1 && volume {
        DiscoveryInterpretationKind::LowQualityNoise
    } else {
        DiscoveryInterpretationKind::EarlyAccumulation
    };
    if kind == DiscoveryInterpretationKind::LowQualityNoise {
        None
    } else {
        Some(kind)
    }
}

pub open spec fn interpretation_label(k: DiscoveryInterpretationKind) -> Seq<char> {
    match k {
        DiscoveryInterpretationKind::EarlyAccumulation => "possible early accumulation"@,
        DiscoveryInterpretationKind::BreakoutConfirmation => "breakout confirmation"@,
        DiscoveryInterpretationKind::ExtendedMomentum => "extended momentum, not early discovery"@,
        DiscoveryInterpretationKind::ConsensusArrival => "consensus arrival / crowd chase"@,
        DiscoveryInterpretationKind::PossibleExhaustion => "possible exhaustion / risk event"@,
        DiscoveryInterpretationKind::ExistingThesisTrigger => "existing thesis trigger"@,
        DiscoveryInterpretationKind::LowQualityNoise => "low quality noise"@,
    }
}

impl DiscoveryInterpretationKind {
    /// How a composed signal describes the interpretation to the operator.
    /// Noise is never composed into a signal.
    pub fn label(self) -> (r: &'static str)
        requires
            self != DiscoveryInterpretationKind::LowQualityNoise,
        ensures
            r@ == interpretation_label(self),
    {
        match self {
            DiscoveryInterpretationKind::EarlyAccumulation => "possible early accumulation",
            DiscoveryInterpretationKind::BreakoutConfirmation => "breakout confirmation",
            DiscoveryInterpretationKind::ExtendedMomentum => "extended momentum, not early discovery",
            DiscoveryInterpretationKind::ConsensusArrival => "consensus arrival / crowd chase",
            DiscoveryInterpretationKind::PossibleExhaustion => "possible exhaustion / risk event",
            DiscoveryInterpretationKind::ExistingThesisTrigger => "existing thesis trigger",
            DiscoveryInterpretationKind::LowQualityNoise => "low quality noise",
        }
    }
}

// ------------------------------------------------------------------ laws

/// Hits on a symbol with an actionable thesis always trigger that thesis.
pub proof fn law_actionable_thesis_is_a_trigger(
    hits: Seq<HitView>,
    extension: Option<ExtensionClass>,
    has_open_thesis: bool,
    is_active_ticker: bool,
)
    requires
        hits.len() > 0,
    ensures
        interpretation(hits, extension, has_open_thesis, true, is_active_ticker) == Some(
            DiscoveryInterpretationKind::ExistingThesisTrigger,
        ),
{
}

/// An active symbol without an actionable thesis raises no new candidate.
pub proof fn law_active_ticker_without_actionable_thesis_is_quiet(
    hits: Seq<HitView>,
    extension: Option<ExtensionClass>,
    has_open_thesis: bool,
)
    ensures
        interpretation(hits, extension, has_open_thesis, false, true) is None,
{
}

/// A lone volume spike with no price extension known is noise.
pub proof fn law_lone_volume_spike_is_noise(hit: HitView, has_open_thesis: bool, is_active_ticker: bool)
    requires
        hit.signal_name@ == "volume_anomaly"@,
    ensures
        interpretation(seq![hit], None, has_open_thesis, false, is_active_ticker) is None,
{
    let hits = seq![hit];
    assert(hits.drop_first() =~= Seq::<HitView>::empty());
    reveal_strlit("volume_anomaly");
    reveal_strlit("estimate_revision_velocity");
    reveal_strlit("news_sentiment_shift");
    reveal_strlit("base_breakout");
    assert("volume_anomaly"@[0] == 'v' && "estimate_revision_velocity"@[0] == 'e');
    assert("news_sentiment_shift"@[0] == 'n' && "base_breakout"@[0] == 'b');
    assert(first_sign(hits.drop_first(), "estimate_revision_velocity"@) is None);
    assert(first_sign(hits.drop_first(), "news_sentiment_shift"@) is None);
    assert(first_sign(hits.drop_first(), "base_breakout"@) is None);
    assert(first_sign(hits, "volume_anomaly"@) is Some);
    assert(first_sign(hits, "estimate_revision_velocity"@) is None);
    assert(first_sign(hits, "news_sentiment_shift"@) is None);
    assert(first_sign(hits, "base_breakout"@) is None);
}

} // verus!
