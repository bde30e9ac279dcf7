use stocks::goalpost::{analyze, expr_is_looser_than, Condition};

fn q(name: &str, expr: &str) -> Condition {
    Condition::Quantitative {
        name: name.to_string(),
        expr: expr.to_string(),
    }
}

fn n(name: &str, assertion: &str) -> Condition {
    Condition::Narrative {
        name: name.to_string(),
        assertion: assertion.to_string(),
    }
}

#[test]
fn identical_is_clean() {
    let c = vec![q("gm_collapse", "gross_margin < 45")];
    let r = analyze(&c, &c);
    assert!(!r.weakened, "{r:?}");
    assert!(!r.needs_review);
}

#[test]
fn empty_original_no_weakening() {
    let r = analyze(&vec![], &vec![q("new", "x < 10")]);
    assert!(!r.weakened);
}

#[test]
fn all_conditions_dropped_is_weakened() {
    let original = vec![q("gm", "gross_margin < 45")];
    let r = analyze(&original, &vec![]);
    assert!(r.weakened);
    assert_eq!(r.dropped, vec!["gm"]);
}

#[test]
fn dropped_condition_is_weakened() {
    let original = vec![
        q("gm", "gross_margin < 45"),
        n("hyperscale_cut", "Top-3 hyperscalers cut capex >15%"),
    ];
    let updated = vec![q("gm", "gross_margin < 45")];
    let r = analyze(&original, &updated);
    assert!(r.weakened);
    assert_eq!(r.dropped, vec!["hyperscale_cut"]);
}

#[test]
fn loosening_lt_is_weakened() {
    let original = vec![q("gm", "gross_margin < 45")];
    let updated = vec![q("gm", "gross_margin < 30")];
    let r = analyze(&original, &updated);
    assert!(r.weakened, "'< 45' → '< 30' is a loosening: {r:?}");
    assert_eq!(r.loosened, vec!["gm"]);
}

#[test]
fn loosening_gt_is_weakened() {
    let original = vec![q("churn", "churn_rate > 12")];
    let updated = vec![q("churn", "churn_rate > 20")];
    let r = analyze(&original, &updated);
    assert!(r.weakened, "'> 12' → '> 20' is a loosening: {r:?}");
}

#[test]
fn tightening_gt_is_clean() {
    let original = vec![q("churn", "churn_rate > 12")];
    let updated = vec![q("churn", "churn_rate > 8")];
    let r = analyze(&original, &updated);
    assert!(!r.weakened, "'> 12' → '> 8' is a tightening: {r:?}");
}

#[test]
fn tightening_lt_is_clean() {
    let original = vec![q("gm", "gross_margin < 45")];
    let updated = vec![q("gm", "gross_margin < 50")];
    let r = analyze(&original, &updated);
    assert!(!r.weakened);
}

#[test]
fn added_condition_is_clean() {
    let original = vec![q("gm", "gross_margin < 45")];
    let updated = vec![q("gm", "gross_margin < 45"), q("capex", "capex_growth < 0")];
    let r = analyze(&original, &updated);
    assert!(!r.weakened, "{r:?}");
    assert_eq!(r.added, vec!["capex"]);
}

#[test]
fn narrative_change_needs_review() {
    let original = vec![n("moat", "AMD cannot match HBM scale before 2027")];
    let updated = vec![n("moat", "AMD cannot match HBM scale before mid-2028")];
    let r = analyze(&original, &updated);
    assert!(r.needs_review);
}

#[test]
fn narrative_identical_no_review() {
    let c = vec![n("moat", "AMD cannot match HBM scale before 2027")];
    let r = analyze(&c, &c);
    assert!(!r.needs_review);
}

#[test]
fn pure_rewrite_flags_review() {
    let original = vec![q("gm", "gross_margin < 45")];
    let updated = vec![q("yoy_rev", "yoy_revenue_growth < 5")];
    let r = analyze(&original, &updated);
    assert!(r.needs_review);
    assert!(r.weakened, "drop without retain IS weakening: {r:?}");
}

#[test]
fn mixed_signals_weakens_if_any_weaken() {
    let original = vec![q("gm", "gross_margin < 45"), q("capex", "capex_growth < 0")];
    let updated = vec![
        q("gm", "gross_margin < 30"),
        q("capex", "capex_growth < 0"),
        q("share_loss", "market_share_pct < 30"),
    ];
    let r = analyze(&original, &updated);
    assert!(r.weakened);
    assert_eq!(r.loosened.len(), 1);
    assert_eq!(r.added.len(), 1);
}

#[test]
fn expr_loosening_table() {
    let cases: &[(&str, &str, bool)] = &[
        ("x < 45", "x < 30", true),
        ("x < 45", "x < 50", false),
        ("x < 45", "x < 45", false),
        ("x <= 45", "x <= 30", true),
        ("x > 12", "x > 20", true),
        ("x > 12", "x > 8", false),
        ("x >= 12", "x >= 20", true),
        ("x < 45", "y < 45", false),
        ("x == 5", "x == 6", false),
    ];
    for (old, new, looser) in cases {
        assert_eq!(
            expr_is_looser_than(new, old),
            *looser,
            "exprIsLooserThan({new:?} vs {old:?})"
        );
    }
}

#[test]
fn reasons_explain_each_change() {
    let original = vec![
        q("gm", "gross_margin < 45"),
        n("moat", "old claim"),
        q("gone", "x > 1"),
    ];
    let updated = vec![q("gm", "gross_margin < 30"), n("moat", "new claim")];
    let r = analyze(&original, &updated);
    assert!(r.weakened);
    assert!(r.needs_review);
    assert_eq!(r.dropped, vec!["gone"]);
    assert_eq!(r.loosened, vec!["gm"]);
    assert_eq!(r.reasons.len(), 3);
    assert!(r.reasons.iter().any(|x| x.contains("gone")));
}

#[test]
fn decimal_thresholds_compare_exactly() {
    assert!(expr_is_looser_than("x < 44.95", "x < 45"));
    assert!(!expr_is_looser_than("x < 45.00", "x < 45"));
    assert!(expr_is_looser_than("x > -1", "x > -1.5"));
    assert!(!expr_is_looser_than("x < abc", "x < 45"));
    assert!(expr_is_looser_than("x<45", "x < 50"));
    assert!(!expr_is_looser_than("a b < 45", "a b < 50"));
    assert!(expr_is_looser_than("x < 45.", "x < 50"));
    assert!(expr_is_looser_than("x < .5", "x < 1"));
    assert!(expr_is_looser_than("x >= +20", "x >= 12"));
    assert!(!expr_is_looser_than("x != 5", "x != 6"));
}

#[test]
fn thresholds_read_as_floats_do() {
    // Exponents, in either case and with a sign.
    assert!(expr_is_looser_than("x < 4.4e1", "x < 45"));
    assert!(!expr_is_looser_than("x < 4.5E1", "x < 45"));
    assert!(expr_is_looser_than("x > 1e3", "x > 999.5"));
    assert!(expr_is_looser_than("x < 5e-1", "x < 0.6"));
    assert!(!expr_is_looser_than("x < 1.e+2", "x < 100"));
    // A mark without exponent digits is no numeral.
    assert!(!expr_is_looser_than("x < 1e", "x < 50"));
    assert!(!expr_is_looser_than("x < e5", "x < 50"));
    // Infinities lie beyond every number; NaN is ordered with nothing.
    assert!(expr_is_looser_than("x > inf", "x > 1e300"));
    assert!(expr_is_looser_than("x < -Infinity", "x < -1e300"));
    assert!(!expr_is_looser_than("x > inf", "x > INF"));
    assert!(!expr_is_looser_than("x < NaN", "x < 5"));
    assert!(!expr_is_looser_than("x < 5", "x < nan"));
    // Zero is zero whatever its sign and exponent.
    assert!(!expr_is_looser_than("x < -0e7", "x < 0"));
    assert!(expr_is_looser_than("x < -0.000001", "x < 0e-99"));
}
