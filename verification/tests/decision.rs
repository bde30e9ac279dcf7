use stocks::decision::{
    decide_parsed, default_added_by, normalize_disagreement, normalize_human_conviction,
    plan_decision, requested_thesis_id, DecisionError, DecisionPlan, DecisionRequest,
    ManualFillView, SizingView, ThesisSnapshot,
};

#[test]
fn disagreement_reason_is_required_for_skip_or_reject() {
    let skip = normalize_disagreement("skip", "deferred", "", "");
    assert!(skip.is_err());

    let rejected = normalize_disagreement("enter", "rejected", "", "");
    assert!(rejected.is_err());

    let accepted = normalize_disagreement("enter", "confirmed", "", "").unwrap();
    assert_eq!(accepted, (None, None));
}

#[test]
fn disagreement_reason_validates_reason_and_other_detail() {
    let ok = normalize_disagreement(
        "skip",
        "deferred",
        "valuation_priced",
        "story is true but already reflected",
    )
    .unwrap();
    assert_eq!(
        ok,
        (
            Some("valuation_priced".to_string()),
            Some("story is true but already reflected".to_string())
        )
    );

    assert!(normalize_disagreement("skip", "deferred", "other", "").is_err());
    assert!(normalize_disagreement("skip", "deferred", "not_a_reason", "").is_err());
}

#[test]
fn human_conviction_is_required_and_validated() {
    assert_eq!(
        normalize_human_conviction(" Medium ").unwrap(),
        "medium".to_string()
    );
    assert!(normalize_human_conviction("").is_err());
    assert!(normalize_human_conviction("very_high").is_err());
}

#[test]
fn disagreement_errors_name_the_problem() {
    assert_eq!(
        normalize_disagreement("skip", "deferred", "  ", "").unwrap_err(),
        "disagreement_reason required for skip/rejected decisions"
    );
    assert_eq!(
        normalize_disagreement("enter", "confirmed", "", "some detail").unwrap_err(),
        "disagreement_reason required when disagreement_detail is provided"
    );
    assert_eq!(
        normalize_disagreement("enter", "confirmed", " Wrong_Guess ", "").unwrap_err(),
        "invalid disagreement_reason: wrong_guess"
    );
    assert_eq!(
        normalize_disagreement("enter", "confirmed", "other", "   ").unwrap_err(),
        "disagreement_detail required when disagreement_reason is other"
    );
    assert_eq!(
        normalize_disagreement("enter", "confirmed", " DATA_STALE ", "  ").unwrap(),
        (Some("data_stale".to_string()), None)
    );
    assert_eq!(
        normalize_disagreement("enter", "confirmed", "other", " why not ").unwrap(),
        (Some("other".to_string()), Some("why not".to_string()))
    );
}

#[test]
fn conviction_errors_and_default_member_author() {
    assert_eq!(normalize_human_conviction("   ").unwrap_err(), "human_conviction required");
    assert_eq!(
        normalize_human_conviction(" Extreme").unwrap_err(),
        "invalid human_conviction: extreme"
    );
    assert_eq!(normalize_human_conviction("HIGH").unwrap(), "high");
    assert_eq!(default_added_by(), "user");
}

const THESIS_ID: &str = "67e55044-10b1-426f-9247-bb680e5fe0c8";

fn thesis_bytes() -> Vec<u8> {
    vec![
        0x67, 0xe5, 0x50, 0x44, 0x10, 0xb1, 0x42, 0x6f, 0x92, 0x47, 0xbb, 0x68, 0x0e, 0x5f, 0xe0,
        0xc8,
    ]
}

fn request(action: &str) -> DecisionRequest {
    DecisionRequest {
        thesis_id: THESIS_ID.to_string(),
        action: action.to_string(),
        user_choice: "confirmed".to_string(),
        disagreement_reason: String::new(),
        disagreement_detail: String::new(),
        human_conviction: "High".to_string(),
        reason: "  earnings beat  ".to_string(),
        sizing: SizingView {
            is_object: true,
            side: Some("long".to_string()),
            instrument: None,
        },
        manual_fill: None,
        chart_range_seen: Some("6M".to_string()),
    }
}

fn fill(side: Option<&str>) -> ManualFillView {
    ManualFillView {
        invalid: None,
        side: side.map(str::to_string),
        instrument: None,
    }
}

fn thesis(state: &str) -> Option<ThesisSnapshot> {
    Some(ThesisSnapshot {
        state: state.to_string(),
        instrument: Some("leaps".to_string()),
    })
}

fn bad_request(r: Result<DecisionPlan, DecisionError>) -> String {
    match r {
        Err(DecisionError::BadRequest(m)) => m,
        Err(DecisionError::ThesisNotFound(_)) => panic!("thesis not found"),
        Ok(_) => panic!("decision accepted"),
    }
}

fn planned(r: Result<DecisionPlan, DecisionError>) -> DecisionPlan {
    match r {
        Ok(p) => p,
        Err(DecisionError::BadRequest(m)) => panic!("refused: {m}"),
        Err(DecisionError::ThesisNotFound(_)) => panic!("thesis not found"),
    }
}

#[test]
fn decision_action_and_sizing_are_checked_first() {
    assert_eq!(
        bad_request(plan_decision(&request("hold"), thesis("actionable"))),
        "invalid decision action"
    );
    let mut req = request(" ENTER ");
    req.sizing.is_object = false;
    assert_eq!(bad_request(plan_decision(&req, thesis("actionable"))), "sizing must be a JSON object");
}

#[test]
fn thesis_id_is_parsed_as_a_uuid() {
    let mut req = request("enter");
    req.thesis_id = "not-a-uuid".to_string();
    assert_eq!(bad_request(plan_decision(&req, thesis("actionable"))), "invalid thesis_id");

    req.thesis_id = format!("  {THESIS_ID} ");
    match requested_thesis_id(&req) {
        Ok(Some(id)) => assert_eq!(id, thesis_bytes()),
        _ => panic!("thesis id not parsed"),
    }
    req.thesis_id = "   ".to_string();
    assert!(matches!(requested_thesis_id(&req), Ok(None)));
}

#[test]
fn unknown_thesis_is_not_found() {
    match plan_decision(&request("enter"), None) {
        Err(DecisionError::ThesisNotFound(id)) => assert_eq!(id, thesis_bytes()),
        _ => panic!("expected thesis not found"),
    }
}

#[test]
fn manual_fill_must_match_thesis_state() {
    let mut req = request("enter");
    req.manual_fill = Some(fill(Some("long")));
    assert_eq!(
        bad_request(plan_decision(&req, thesis("candidate"))),
        "manual enter fill requires actionable thesis, got candidate"
    );
    req.action = "exit".to_string();
    assert_eq!(
        bad_request(plan_decision(&req, thesis("actionable"))),
        "manual exit fill requires position_open/exiting thesis, got actionable"
    );
    req.action = "skip".to_string();
    req.disagreement_reason = "data_stale".to_string();
    assert_eq!(
        bad_request(plan_decision(&req, thesis("actionable"))),
        "manual fills are only supported for enter, resize, and exit decisions"
    );

    let mut req = request("enter");
    req.thesis_id = String::new();
    req.manual_fill = Some(fill(Some("long")));
    assert_eq!(bad_request(plan_decision(&req, None)), "manual fills must be linked to a thesis");

    let mut req = request("enter");
    req.manual_fill = Some(ManualFillView {
        invalid: Some("fill quantity must be positive".to_string()),
        side: Some("long".to_string()),
        instrument: None,
    });
    assert_eq!(
        bad_request(plan_decision(&req, thesis("actionable"))),
        "fill quantity must be positive"
    );
}

#[test]
fn trade_side_and_instrument_are_checked() {
    let mut req = request("enter");
    req.sizing.side = Some(" sideways ".to_string());
    assert_eq!(bad_request(plan_decision(&req, thesis("actionable"))), "invalid trade side: sideways");

    let mut req = request("enter");
    req.sizing.instrument = Some("crypto".to_string());
    assert_eq!(
        bad_request(plan_decision(&req, thesis("actionable"))),
        "invalid trade instrument: crypto"
    );

    let mut req = request("enter");
    req.sizing.side = Some("none".to_string());
    req.manual_fill = Some(fill(None));
    assert_eq!(
        bad_request(plan_decision(&req, thesis("actionable"))),
        "manual enter/resize/exit fill needs side"
    );
}

#[test]
fn filled_enter_opens_the_position() {
    let mut req = request(" Enter ");
    req.manual_fill = Some(fill(Some("call")));
    let plan = planned(plan_decision(&req, thesis("actionable")));
    assert_eq!(plan.action, "enter");
    assert_eq!(plan.thesis_id, Some(thesis_bytes()));
    assert_eq!(plan.side, Some("call".to_string()));
    assert_eq!(plan.instrument, "leaps");
    assert!(plan.sizing_records_instrument);
    assert_eq!(plan.user_choice, "confirmed");
    assert_eq!(plan.human_conviction, "high");
    assert_eq!(plan.reason, Some("earnings beat".to_string()));
    assert_eq!(plan.chart_range_seen, Some("6M".to_string()));
    assert_eq!(plan.ticket_status, Some("filled"));
    assert!(plan.opens_position);
}

#[test]
fn ticket_status_follows_the_operator_choice() {
    let plan = planned(plan_decision(&request("resize"), thesis("position_open")));
    assert_eq!(plan.ticket_status, Some("accepted"));
    assert!(!plan.opens_position);
    assert_eq!(plan.side, Some("long".to_string()));

    let mut req = request("exit");
    req.user_choice = "rejected".to_string();
    req.disagreement_reason = "risk_too_high".to_string();
    let plan = planned(plan_decision(&req, thesis("position_open")));
    assert_eq!(plan.ticket_status, Some("rejected"));
    assert_eq!(plan.disagreement_reason, Some("risk_too_high".to_string()));
    assert!(!plan.sizing_records_instrument);

    let mut req = request("enter");
    req.user_choice = "deferred".to_string();
    let plan = planned(plan_decision(&req, thesis("actionable")));
    assert_eq!(plan.ticket_status, Some("proposed"));

    let mut req = request("skip");
    req.thesis_id = String::new();
    req.disagreement_reason = "not_my_edge".to_string();
    req.sizing.side = None;
    let plan = planned(plan_decision(&req, None));
    assert_eq!(plan.ticket_status, None);
    assert_eq!(plan.thesis_id, None);
    assert_eq!(plan.instrument, "equity");
    assert_eq!(plan.side, None);
}

#[test]
fn decide_parsed_uses_the_given_id() {
    let mut req = request("enter");
    req.thesis_id = "anything".to_string();
    let plan = planned(decide_parsed(&req, Some(thesis_bytes()), thesis("actionable")));
    assert_eq!(plan.thesis_id, Some(thesis_bytes()));
    assert_eq!(bad_request(decide_parsed(&req, None, thesis("actionable"))), "invalid thesis_id");
}
