use stocks::brain::{
    brain_check_times, brain_signals, brain_source_statuses, brain_status_symbol, brain_verdict,
    sector_conflicts, BrainStatusInput, SectorThesis,
    BrainVerdict, SourceGroupStatuses, SourceTaskView,
};
use stocks::sources::SourceHealthSnapshot;

const NOW: i64 = 1_780_000_000;

fn groups(all: &str) -> SourceGroupStatuses {
    SourceGroupStatuses {
        price: all.to_string(),
        news: all.to_string(),
        estimates: all.to_string(),
        analyst_opinion: all.to_string(),
        profile: all.to_string(),
        earnings: all.to_string(),
        research: all.to_string(),
        fundamentals: all.to_string(),
        filings: all.to_string(),
    }
}

fn task(state: &str, result: Option<&str>, updated_at: Option<i64>) -> SourceTaskView {
    SourceTaskView {
        state: state.to_string(),
        result: result.map(str::to_string),
        updated_at,
    }
}

fn input() -> BrainStatusInput {
    BrainStatusInput {
        price_session: Some(20_600),
        expected_price_session: 20_600,
        groups: groups("fresh"),
        tasks: vec![],
        thesis_at: Some(NOW - 600),
        latest_decline_at: None,
        latest_evidence_item_at: Some(NOW - 1_200),
    }
}

fn row(source: &str, status: &str, success: Option<i64>, failure: Option<&str>) -> SourceHealthSnapshot {
    SourceHealthSnapshot {
        source: source.to_string(),
        last_status: status.to_string(),
        last_success_at: success,
        last_started_at: None,
        last_failure_kind: failure.map(str::to_string),
        last_error: None,
        retry_after_at: None,
    }
}

#[test]
fn fresh_sources_with_nothing_new_show_no_delta() {
    let s = brain_signals(&input());
    assert_eq!(s.price_status, "fresh");
    assert!(!s.any_source_stale);
    assert!(!s.source_blocked);
    assert_eq!(s.latest_source_task_outcome_at, None);
    assert!(!s.source_task_delta);
    assert!(!s.evidence_delta);
}

#[test]
fn old_or_absent_price_session_is_stale_or_missing() {
    let mut inp = input();
    inp.price_session = Some(20_599);
    let s = brain_signals(&inp);
    assert_eq!(s.price_status, "stale");
    assert!(s.any_source_stale);

    inp.price_session = None;
    assert_eq!(brain_signals(&inp).price_status, "missing");
}

#[test]
fn fundamentals_do_not_count_as_stale_but_do_block() {
    let mut inp = input();
    inp.groups.fundamentals = "stale".to_string();
    let s = brain_signals(&inp);
    assert!(!s.any_source_stale);
    assert!(!s.source_blocked);

    inp.groups.fundamentals = "rate_limited".to_string();
    let s = brain_signals(&inp);
    assert!(!s.any_source_stale);
    assert!(s.source_blocked);

    let mut inp = input();
    inp.groups.news = "failed".to_string();
    let s = brain_signals(&inp);
    assert!(s.any_source_stale);
    assert!(s.source_blocked);

    let mut inp = input();
    inp.groups.research = "missing".to_string();
    assert!(brain_signals(&inp).any_source_stale);
}

#[test]
fn only_satisfied_tasks_with_rows_are_material() {
    let mut inp = input();
    inp.tasks = vec![
        task("satisfied", Some("rows_seen"), Some(NOW - 900)),
        task("satisfied", Some("no_rows"), Some(NOW)),
        task("pending", Some("rows_seen"), Some(NOW)),
        task("satisfied", Some("rows_seen"), Some(NOW - 60)),
        task("satisfied", Some("rows_seen"), None),
    ];
    let s = brain_signals(&inp);
    assert_eq!(s.latest_source_task_outcome_at, Some(NOW - 60));
    assert!(s.source_task_delta);
}

#[test]
fn deltas_are_measured_from_the_thesis_then_the_last_decline() {
    let mut inp = input();
    inp.latest_evidence_item_at = Some(NOW - 60);
    assert!(brain_signals(&inp).evidence_delta);

    inp.thesis_at = None;
    inp.latest_decline_at = Some(NOW - 30);
    assert!(!brain_signals(&inp).evidence_delta);

    inp.latest_decline_at = None;
    assert!(brain_signals(&inp).evidence_delta);

    inp.latest_evidence_item_at = None;
    assert!(!brain_signals(&inp).evidence_delta);
}

#[test]
fn inactive_ticker_is_not_monitored() {
    let decided = BrainVerdict {
        status: "ready".to_string(),
        next_action: "review_thesis".to_string(),
        reason: "evidence is complete".to_string(),
    };
    let v = brain_verdict(true, &decided);
    assert_eq!(v.status, "ready");
    assert_eq!(v.next_action, "review_thesis");
    assert_eq!(v.reason, "evidence is complete");

    let v = brain_verdict(false, &decided);
    assert_eq!(v.status, "not_monitored");
    assert_eq!(v.next_action, "add_to_universe");
    assert_eq!(
        v.reason,
        "symbol is not in the active universe, so the scheduled brain loop will not run until it is confirmed or added"
    );
}

#[test]
fn each_group_reads_its_own_sources() {
    let rows = vec![
        row("fmp_price", "succeeded", Some(NOW - 100), None),
        row("massive_news", "failed", Some(NOW - 50), None),
        row("fmp_profile_calendar", "failed", Some(NOW - 70), Some("rate_limited")),
        row("xbrl", "succeeded", Some(NOW - 7_200), None),
    ];
    let statuses = brain_source_statuses(&rows, NOW, &groups("fresh"));
    assert_eq!(statuses.price, "fresh");
    assert_eq!(statuses.news, "failed");
    assert_eq!(statuses.estimates, "missing");
    assert_eq!(statuses.analyst_opinion, "missing");
    assert_eq!(statuses.profile, "rate_limited");
    assert_eq!(statuses.earnings, "rate_limited");
    assert_eq!(statuses.research, "missing");
    assert_eq!(statuses.fundamentals, "fresh");
    assert_eq!(statuses.filings, "missing");

    let times = brain_check_times(&rows);
    assert_eq!(times.price, Some(NOW - 100));
    assert_eq!(times.news, Some(NOW - 50));
    assert_eq!(times.earnings, Some(NOW - 70));
    assert_eq!(times.fundamentals, Some(NOW - 7_200));
    assert_eq!(times.filings, None);
}

#[test]
fn status_symbol_is_trimmed_upper_cased_and_bounded() {
    assert_eq!(brain_status_symbol("  nvda "), Some("NVDA".to_string()));
    assert_eq!(brain_status_symbol("brk.b"), Some("BRK.B".to_string()));
    assert_eq!(brain_status_symbol(""), None);
    assert_eq!(brain_status_symbol(" \t "), None);
    assert_eq!(brain_status_symbol("abcdefghijklmn"), Some("ABCDEFGHIJKLMN".to_string()));
    assert_eq!(brain_status_symbol("abcdefghijklmno"), None);
    // Seven two-byte characters fill the fourteen bytes; eight do not fit.
    assert_eq!(brain_status_symbol("ééééééé"), Some("ééééééé".to_string()));
    assert_eq!(brain_status_symbol("éééééééé"), None);
}

fn sector(name: Option<&str>, direction: Option<&str>) -> SectorThesis {
    SectorThesis { name: name.map(str::to_string), direction: direction.map(str::to_string) }
}

#[test]
fn sectors_against_the_macro_direction_conflict() {
    let sectors = vec![
        sector(Some("Semiconductors"), Some("bullish")),
        sector(Some("Utilities"), Some("bearish")),
        sector(None, Some("bullish")),
        sector(Some("Energy"), None),
        sector(Some("Banks"), Some("bullish")),
    ];
    let off = sector_conflicts(&Some("risk_off".to_string()), &sectors);
    assert_eq!(off.len(), 2);
    assert_eq!(off[0].index, 0);
    assert_eq!(off[0].summary, "Macro is risk_off while Semiconductors is bullish");
    assert_eq!(off[1].index, 4);
    assert_eq!(off[1].summary, "Macro is risk_off while Banks is bullish");

    let on = sector_conflicts(&Some("risk_on".to_string()), &sectors);
    assert_eq!(on.len(), 1);
    assert_eq!(on[0].index, 1);
    assert_eq!(on[0].summary, "Macro is risk_on while Utilities is bearish");

    assert!(sector_conflicts(&Some("neutral".to_string()), &sectors).is_empty());
    assert!(sector_conflicts(&None, &sectors).is_empty());
}
