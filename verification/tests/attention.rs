use stocks::attention::{
    default_owner_for_state, fsm, initial_assignment, is_valid_fsm_state, is_valid_owner, kind,
    owner, severity, source, status_for_state, title_for_candidate, title_for_risk_review,
    title_for_thesis_actionable,
};

#[test]
fn attention_state_validation_matches_schema_values() {
    for state in [
        fsm::QUEUED,
        fsm::EVALUATING,
        fsm::WAITING_ON_DATA,
        fsm::READY_FOR_REVIEW,
        fsm::OPERATOR_DEFERRED,
        fsm::ACTIONABLE,
        fsm::RESOLVED,
        fsm::DISMISSED,
        fsm::BLOCKED,
    ] {
        assert!(is_valid_fsm_state(state));
    }
    assert!(!is_valid_fsm_state("paused"));
}

#[test]
fn attention_owner_validation_matches_schema_values() {
    for value in [
        owner::SYSTEM,
        owner::OPERATOR,
        owner::SOURCE,
        owner::COGNITION,
        owner::RISK,
    ] {
        assert!(is_valid_owner(value));
    }
    assert!(!is_valid_owner("analyst"));
}

#[test]
fn terminal_states_drive_coarse_status() {
    assert_eq!(status_for_state(fsm::RESOLVED), "resolved");
    assert_eq!(status_for_state(fsm::DISMISSED), "dismissed");
    assert_eq!(status_for_state(fsm::ACTIONABLE), "open");
}

#[test]
fn default_owner_names_work_owner() {
    assert_eq!(default_owner_for_state(fsm::WAITING_ON_DATA), owner::SOURCE);
    assert_eq!(default_owner_for_state(fsm::EVALUATING), owner::SYSTEM);
    assert_eq!(default_owner_for_state(fsm::ACTIONABLE), owner::OPERATOR);
}

#[test]
fn titles_format_consistently() {
    assert_eq!(
        title_for_candidate("MU", "volume_anomaly"),
        "MU candidate via volume_anomaly"
    );
    assert_eq!(
        title_for_candidate("MU", "extended_momentum"),
        "MU: extended momentum review"
    );
    assert_eq!(
        title_for_candidate("CRWV", "research_nomination"),
        "CRWV: research nomination"
    );
    assert_eq!(
        title_for_thesis_actionable("NVDA"),
        "NVDA thesis ready to act on"
    );
    assert_eq!(
        title_for_risk_review(
            "MU",
            true,
            &[
                "single_name_delta_notional_pct".into(),
                "cash_floor_pct".into()
            ]
        ),
        "MU risk veto: single_name_delta_notional_pct, cash_floor_pct"
    );
    assert_eq!(title_for_risk_review("MU", false, &[]), "MU risk warning");
}

#[test]
fn constants_match_check_constraint() {
    for k in [
        kind::CANDIDATE_REVIEW,
        kind::CONTEXT_STALE,
        kind::THESIS_INCOMPLETE,
        kind::THESIS_REVIEW,
        kind::THESIS_ACTIONABLE,
        kind::RISK_REVIEW,
        kind::INVALIDATION_HIT,
        kind::OUTCOME_READY,
    ] {
        assert!(!k.is_empty());
    }
    for s in [
        severity::INFO,
        severity::REVIEW,
        severity::DECISION,
        severity::BLOCKED,
    ] {
        assert!(!s.is_empty());
    }
    for s in [
        fsm::QUEUED,
        fsm::EVALUATING,
        fsm::WAITING_ON_DATA,
        fsm::READY_FOR_REVIEW,
        fsm::OPERATOR_DEFERRED,
        fsm::ACTIONABLE,
        fsm::RESOLVED,
        fsm::DISMISSED,
        fsm::BLOCKED,
    ] {
        assert!(!s.is_empty());
    }
    for o in [
        owner::SYSTEM,
        owner::OPERATOR,
        owner::SOURCE,
        owner::COGNITION,
        owner::RISK,
    ] {
        assert!(!o.is_empty());
    }
    for s in [
        source::DISCOVERY,
        source::THESIS,
        source::RISK,
        source::CONTEXT,
        source::CONSENSUS,
        source::REFLECTION,
        source::SYSTEM,
    ] {
        assert!(!s.is_empty());
    }
}

#[test]
fn initial_assignment_names_the_current_owner() {
    assert_eq!(
        initial_assignment(kind::CANDIDATE_REVIEW, severity::REVIEW, source::DISCOVERY),
        (fsm::READY_FOR_REVIEW, owner::OPERATOR)
    );
    assert_eq!(
        initial_assignment(kind::THESIS_REVIEW, severity::REVIEW, source::THESIS),
        (fsm::READY_FOR_REVIEW, owner::OPERATOR)
    );
    assert_eq!(
        initial_assignment(kind::THESIS_ACTIONABLE, severity::DECISION, source::THESIS),
        (fsm::ACTIONABLE, owner::OPERATOR)
    );
    assert_eq!(
        initial_assignment(kind::THESIS_INCOMPLETE, severity::REVIEW, source::CONSENSUS),
        (fsm::EVALUATING, owner::COGNITION)
    );
    assert_eq!(
        initial_assignment(kind::RISK_REVIEW, severity::BLOCKED, source::RISK),
        (fsm::BLOCKED, owner::OPERATOR)
    );
}

#[test]
fn every_initial_assignment_is_valid() {
    let kinds = [
        kind::CANDIDATE_REVIEW,
        kind::CONTEXT_STALE,
        kind::THESIS_INCOMPLETE,
        kind::THESIS_REVIEW,
        kind::THESIS_ACTIONABLE,
        kind::RISK_REVIEW,
        kind::INVALIDATION_HIT,
        kind::OUTCOME_READY,
        "unknown_kind",
    ];
    for k in kinds {
        for s in [severity::INFO, severity::BLOCKED] {
            for src in [source::CONTEXT, source::CONSENSUS, source::SYSTEM] {
                let (state, who) = initial_assignment(k, s, src);
                assert!(is_valid_fsm_state(state));
                assert!(is_valid_owner(who));
            }
        }
    }
    assert_eq!(
        initial_assignment(kind::THESIS_INCOMPLETE, severity::REVIEW, source::CONTEXT),
        (fsm::WAITING_ON_DATA, owner::SOURCE)
    );
    assert_eq!(
        initial_assignment(kind::CONTEXT_STALE, severity::INFO, source::CONTEXT),
        (fsm::WAITING_ON_DATA, owner::COGNITION)
    );
    assert_eq!(
        initial_assignment(kind::RISK_REVIEW, severity::REVIEW, source::RISK),
        (fsm::READY_FOR_REVIEW, owner::OPERATOR)
    );
}

#[test]
fn owners_of_other_states() {
    assert_eq!(default_owner_for_state(fsm::QUEUED), owner::SYSTEM);
    assert_eq!(default_owner_for_state(fsm::BLOCKED), owner::SOURCE);
    assert_eq!(default_owner_for_state(fsm::RESOLVED), owner::SYSTEM);
    assert_eq!(default_owner_for_state("anything"), owner::OPERATOR);
    assert_eq!(status_for_state("queued"), "open");
}

#[test]
fn candidate_titles_for_every_label() {
    assert_eq!(title_for_candidate("AMD", "early_accumulation"), "AMD: possible early accumulation");
    assert_eq!(title_for_candidate("AMD", "breakout_confirmation"), "AMD: breakout confirmation");
    assert_eq!(title_for_candidate("AMD", "consensus_arrival"), "AMD: consensus arrival review");
    assert_eq!(title_for_candidate("AMD", "possible_exhaustion"), "AMD: possible exhaustion review");
    assert_eq!(title_for_candidate("AMD", "existing_thesis_trigger"), "AMD: existing thesis trigger");
    assert_eq!(title_for_risk_review("AMD", false, &["cash_floor_pct".to_string()]), "AMD risk warning: cash_floor_pct");
    assert_eq!(title_for_risk_review("AMD", true, &[]), "AMD risk veto");
}
