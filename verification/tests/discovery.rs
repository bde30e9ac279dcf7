use stocks::discovery::{
    interpret_signals, signal_reason, DiscoveryInterpretationKind, ExtensionClass, HitView,
    ValueSign,
};

fn hit(name: &str, value: f64) -> HitView {
    let sign = if value < 0.0 {
        ValueSign::Negative
    } else if value > 0.0 {
        ValueSign::Positive
    } else {
        ValueSign::Zero
    };
    HitView { signal_name: name.to_string(), sign }
}

/// The class of a price extension with the given score, RSI and distances.
fn extension(raw: f64, rsi14: f64, pct_above_sma: f64, pct_from_high: f64) -> ExtensionClass {
    ExtensionClass {
        raw_at_least_60: raw >= 60.0,
        is_high: raw >= 75.0 || (pct_from_high >= -2.0 && (rsi14 >= 70.0 || pct_above_sma >= 20.0)),
        is_low_or_mid: raw < 65.0,
    }
}

#[test]
fn volume_spike_at_high_extension_is_extended_momentum() {
    let got = interpret_signals(&vec![hit("volume_anomaly", 4.5)], Some(extension(90.0, 77.0, 28.0, 0.0)), false, false, false);
    assert_eq!(got, Some(DiscoveryInterpretationKind::ExtendedMomentum));
    assert_eq!(got.unwrap().signal_name(), "extended_momentum");
    assert!(got.unwrap().label().contains("not early discovery"));
}

#[test]
fn volume_plus_tight_breakout_is_breakout_confirmation() {
    let hits = vec![hit("volume_anomaly", 3.7), hit("base_breakout", 4.2)];
    let got = interpret_signals(&hits, Some(extension(45.0, 58.0, 6.0, -8.0)), false, false, false);
    assert_eq!(got, Some(DiscoveryInterpretationKind::BreakoutConfirmation));
}

#[test]
fn high_extension_plus_positive_news_is_consensus_arrival() {
    let hits = vec![hit("volume_anomaly", 5.0), hit("news_sentiment_shift", 0.4)];
    let got = interpret_signals(&hits, Some(extension(95.0, 81.0, 31.0, -0.5)), false, false, false);
    assert_eq!(got, Some(DiscoveryInterpretationKind::ConsensusArrival));
    assert!(got.unwrap().label().contains("crowd chase"));
}

#[test]
fn negative_news_at_high_extension_is_possible_exhaustion() {
    let hits = vec![hit("news_sentiment_shift", -0.4)];
    let got = interpret_signals(&hits, Some(extension(78.0, 72.0, 40.0, -3.0)), false, false, false);
    assert_eq!(got, Some(DiscoveryInterpretationKind::PossibleExhaustion));
    assert!(got.unwrap().label().contains("risk event"));
}

#[test]
fn actionable_thesis_routes_to_existing_thesis_trigger() {
    let got = interpret_signals(&vec![hit("volume_anomaly", 3.2)], Some(extension(55.0, 62.0, 10.0, -5.0)), false, true, false);
    assert_eq!(got, Some(DiscoveryInterpretationKind::ExistingThesisTrigger));
}

#[test]
fn active_ticker_without_actionable_thesis_does_not_create_candidate_review() {
    let hits = vec![hit("volume_anomaly", 3.8), hit("news_sentiment_shift", 0.5)];
    let got = interpret_signals(&hits, Some(extension(58.0, 64.0, 12.0, -8.0)), false, false, true);
    assert!(got.is_none());
}

#[test]
fn weak_volume_only_signal_is_suppressed() {
    let got = interpret_signals(&vec![hit("volume_anomaly", 3.1)], Some(extension(22.0, 54.0, 4.0, -20.0)), false, false, false);
    assert!(got.is_none());
}

#[test]
fn early_accumulation_and_other_fallbacks() {
    let hits = vec![hit("volume_anomaly", 3.0), hit("estimate_revision_velocity", 2.0)];
    assert_eq!(
        interpret_signals(&hits, Some(extension(30.0, 50.0, 2.0, -15.0)), false, false, false),
        Some(DiscoveryInterpretationKind::EarlyAccumulation)
    );
    assert_eq!(
        interpret_signals(&vec![hit("research_nomination", 3.0)], None, false, false, false),
        Some(DiscoveryInterpretationKind::EarlyAccumulation)
    );
    assert_eq!(
        interpret_signals(&vec![hit("volume_anomaly", 3.0)], Some(extension(90.0, 80.0, 30.0, 0.0)), true, false, false),
        Some(DiscoveryInterpretationKind::ConsensusArrival)
    );
    assert_eq!(interpret_signals(&vec![], None, false, true, false), None);
    // Only the first hit of a name counts.
    let hits = vec![hit("news_sentiment_shift", 0.3), hit("news_sentiment_shift", -0.9), hit("volume_anomaly", 3.0)];
    assert_eq!(
        interpret_signals(&hits, Some(extension(80.0, 75.0, 25.0, -1.0)), false, false, false),
        Some(DiscoveryInterpretationKind::ConsensusArrival)
    );
}

#[test]
fn interpretation_names_and_signal_reasons() {
    assert_eq!(DiscoveryInterpretationKind::EarlyAccumulation.signal_name(), "early_accumulation");
    assert_eq!(DiscoveryInterpretationKind::LowQualityNoise.signal_name(), "low_quality_noise");
    assert_eq!(DiscoveryInterpretationKind::BreakoutConfirmation.label(), "breakout confirmation");
    assert_eq!(signal_reason("estimate_revision_velocity"), "estimate revisions");
    assert_eq!(signal_reason("volume_anomaly"), "volume anomaly");
    assert_eq!(signal_reason("something_new"), "discovery signal");
}
