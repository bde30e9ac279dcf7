//! Validation of what an operator records with a decision.

use vstd::prelude::*;
use crate::text::{
    append, chars_of, copy_opt, copy_string, lower, lower_chars, matches_any, one_of, owned, append_string,
    opt_view, str_eq, string_from_chars, strs, trim, trim_str,
};
use crate::execution::{allowed_instrument, allowed_side, fill_instruments, fill_sides};

verus! {

pub open spec fn disagreement_reasons() -> Seq<Seq<char>> {
    seq![
        "wrong_cluster"@,
        "not_my_edge"@,
        "signal_too_weak"@,
        "valuation_priced"@,
        "data_stale"@,
        "llm_overreached"@,
        "risk_too_high"@,
        "other"@,
    ]
}

pub open spec fn human_convictions() -> Seq<Seq<char>> {
    seq!["low"@, "medium"@, "high"@]
}

/// Trimmed and lowered to ASCII lower case.
pub open spec fn normalized(s: Seq<char>) -> Seq<char> {
    lower(trim(s))
}

pub type DisagreementView = Result<(Option<Seq<char>>, Option<Seq<char>>), Seq<char>>;

/// What a decision records of the operator's disagreement: the reason (one of
/// the known ones, normalized) and an optional trimmed detail. A reason is
/// required for a skip or a rejection, and for any detail; "other" needs a detail.
pub open spec fn disagreement_spec(action: Seq<char>, user_choice: Seq<char>, raw_reason: Seq<char>, raw_detail: Seq<char>) -> DisagreementView {
    let reason = normalized(raw_reason);
    let detail = trim(raw_detail);
    let required = action == "skip"@ || user_choice == "rejected"@;
    if reason.len() == 0 {
        if required {
            Err("disagreement_reason required for skip/rejected decisions"@)
        } else if detail.len() != 0 {
            Err("disagreement_reason required when disagreement_detail is provided"@)
        } else {
            Ok((None, None))
        }
    } else if !one_of(reason, disagreement_reasons()) {
        Err("invalid disagreement_reason: "@ + reason)
    } else if reason == "other"@ && detail.len() == 0 {
        Err("disagreement_detail required when disagreement_reason is other"@)
    } else {
        Ok((Some(reason), if detail.len() == 0 { None } else { Some(detail) }))
    }
}

pub open spec fn disagreement_view(r: Result<(Option<String>, Option<String>), String>) -> DisagreementView {
    match r {
        Ok((a, b)) => Ok((opt_view(a), opt_view(b))),
        Err(e) => Err(e@),
    }
}

/// The trimmed, ASCII-lowered text of `s`.
fn normalize(s: &str) -> (r: String)
    ensures
        r@ == normalized(s@),
{
    let t = trim_str(s);
    let c = chars_of(t.as_str());
    let l = lower_chars(&c);
    string_from_chars(&l)
}

/// Checks and normalizes the disagreement reason and detail of a decision.
pub fn normalize_disagreement(action: &str, user_choice: &str, raw_reason: &str, raw_detail: &str) -> (r: Result<(Option<String>, Option<String>), String>)
    ensures
        disagreement_view(r) == disagreement_spec(action@, user_choice@, raw_reason@, raw_detail@),
{
    let reason = normalize(raw_reason);
    let detail = trim_str(raw_detail);
    let reason_empty = chars_of(reason.as_str()).len() == 0;
    let detail_empty = chars_of(detail.as_str()).len() == 0;
    let required = str_eq(action, "skip") || str_eq(user_choice, "rejected");
    if reason_empty {
        if required {
            return Err(owned("disagreement_reason required for skip/rejected decisions"));
        }
        if !detail_empty {
            return Err(owned("disagreement_reason required when disagreement_detail is provided"));
        }
        return Ok((None, None));
    }
    let known: Vec<&str> = vec![
        "wrong_cluster",
        "not_my_edge",
        "signal_too_weak",
        "valuation_priced",
        "data_stale",
        "llm_overreached",
        "risk_too_high",
        "other",
    ];
    assert(strs(known@) =~= disagreement_reasons());
    if !matches_any(reason.as_str(), &known) {
        let mut message = owned("invalid disagreement_reason: ");
        append_string(&mut message, &reason);
        return Err(message);
    }
    if str_eq(reason.as_str(), "other") && detail_empty {
        return Err(owned("disagreement_detail required when disagreement_reason is other"));
    }
    Ok((Some(reason), if detail_empty { None } else { Some(detail) }))
}

pub open spec fn conviction_spec(raw: Seq<char>) -> Result<Seq<char>, Seq<char>> {
    let value = normalized(raw);
    if value.len() == 0 {
        Err("human_conviction required"@)
    } else if !one_of(value, human_convictions()) {
        Err("invalid human_conviction: "@ + value)
    } else {
        Ok(value)
    }
}

/// The operator's own conviction: required, one of low, medium or high.
pub fn normalize_human_conviction(raw: &str) -> (r: Result<String, String>)
    ensures
        match (r, conviction_spec(raw@)) {
            (Ok(a), Ok(b)) => a@ == b,
            (Err(a), Err(b)) => a@ == b,
            _ => false,
        },
{
    let value = normalize(raw);
    if chars_of(value.as_str()).len() == 0 {
        return Err(owned("human_conviction required"));
    }
    let known: Vec<&str> = vec!["low", "medium", "high"];
    assert(strs(known@) =~= human_convictions());
    if !matches_any(value.as_str(), &known) {
        let mut message = owned("invalid human_conviction: ");
        append_string(&mut message, &value);
        return Err(message);
    }
    Ok(value)
}

/// Who added a watchlist member when the request does not say.
pub fn default_added_by() -> (r: String)
    ensures
        r@ == "user"@,
{
    owned("user")
}

// ------------------------------------------------------------------ recording decisions

/// What a decision reads of its sizing: whether the sizing is a JSON object
/// (or absent), and its `side` and `instrument` strings as given.
#[derive(Clone, Debug)]
pub struct SizingView {
    pub is_object: bool,
    pub side: Option<String>,
    pub instrument: Option<String>,
}

/// What a decision reads of a manual fill: why its quantity, price or fees
/// are refused (if they are), and its side and instrument as given.
#[derive(Clone, Debug)]
pub struct ManualFillView {
    pub invalid: Option<String>,
    pub side: Option<String>,
    pub instrument: Option<String>,
}

/// A decision as the operator submits it.
#[derive(Clone, Debug)]
pub struct DecisionRequest {
    pub thesis_id: String,
    pub action: String,
    pub user_choice: String,
    pub disagreement_reason: String,
    pub disagreement_detail: String,
    pub human_conviction: String,
    pub reason: String,
    pub sizing: SizingView,
    pub manual_fill: Option<ManualFillView>,
    pub chart_range_seen: Option<String>,
}

/// The thesis a decision is linked to: its state and planned instrument.
#[derive(Clone, Debug)]
pub struct ThesisSnapshot {
    pub state: String,
    pub instrument: Option<String>,
}

/// Why a decision is refused: a bad request with its message, or a thesis
/// id (16 bytes) that names no thesis.
#[derive(Clone, Debug)]
pub enum DecisionError {
    BadRequest(String),
    ThesisNotFound(Vec<u8>),
}

/// What recording the decision does.
#[derive(Clone, Debug)]
pub struct DecisionPlan {
    pub action: String,
    pub thesis_id: Option<Vec<u8>>,
    pub side: Option<String>,
    pub instrument: String,
    pub sizing_records_instrument: bool,
    pub user_choice: String,
    pub disagreement_reason: Option<String>,
    pub disagreement_detail: Option<String>,
    pub human_conviction: String,
    pub reason: Option<String>,
    pub chart_range_seen: Option<String>,
    pub ticket_status: Option<&'static str>,
    pub opens_position: bool,
}

pub enum DecisionErrorView {
    BadRequest(Seq<char>),
    ThesisNotFound(Seq<u8>),
}

pub struct DecisionPlanView {
    pub action: Seq<char>,
    pub thesis_id: Option<Seq<u8>>,
    pub side: Option<Seq<char>>,
    pub instrument: Seq<char>,
    pub sizing_records_instrument: bool,
    pub user_choice: Seq<char>,
    pub disagreement_reason: Option<Seq<char>>,
    pub disagreement_detail: Option<Seq<char>>,
    pub human_conviction: Seq<char>,
    pub reason: Option<Seq<char>>,
    pub chart_range_seen: Option<Seq<char>>,
    pub ticket_status: Option<Seq<char>>,
    pub opens_position: bool,
}

/// The parsed UUID (16 bytes) that a text names, if it names one.
pub uninterp spec fn uuid_parse(text: Seq<char>) -> Option<Seq<u8>>;

/// Parses a thesis id with `uuid::Uuid::parse_str`. Claimed: the bytes are
/// the named parse of the text (none when the crate refuses it).
#[verifier::external_body]
fn parse_thesis_id(text: &str) -> (r: Option<Vec<u8>>)
    ensures
        match (r, uuid_parse(text@)) {
            (Some(v), Some(b)) => v@ == b,
            (None, None) => true,
            _ => false,
        },
{
    uuid::Uuid::parse_str(text).ok().map(|u| u.as_bytes().to_vec())
}

pub open spec fn decision_actions() -> Seq<Seq<char>> {
    seq!["enter"@, "exit"@, "skip"@, "resize"@]
}

pub open spec fn bytes_view(o: Option<Vec<u8>>) -> Option<Seq<u8>> {
    match o {
        Some(v) => Some(v@),
        None => None,
    }
}

pub open spec fn bad(m: Seq<char>) -> DecisionErrorView {
    DecisionErrorView::BadRequest(m)
}

/// The action, sizing and thesis-id checks, giving the id to load.
pub open spec fn requested_id_spec(req: DecisionRequest, parsed: Option<Seq<u8>>) -> Result<Option<Seq<u8>>, DecisionErrorView> {
    if !one_of(normalized(req.action@), decision_actions()) {
        Err(bad("invalid decision action"@))
    } else if !req.sizing.is_object {
        Err(bad("sizing must be a JSON object"@))
    } else if trim(req.thesis_id@).len() == 0 {
        Ok(None)
    } else {
        match parsed {
            Some(b) => Ok(Some(b)),
            None => Err(bad("invalid thesis_id"@)),
        }
    }
}

/// Why a manual fill cannot be recorded with this action and thesis.
pub open spec fn fill_problem(action: Seq<char>, fill: Option<ManualFillView>, meta: Option<ThesisSnapshot>) -> Option<Seq<char>> {
    match fill {
        None => None,
        Some(f) => match f.invalid {
            Some(m) => Some(m@),
            None => match meta {
                None => Some("manual fills must be linked to a thesis"@),
                Some(t) => {
                    let st = t.state@;
                    if action == "enter"@ {
                        if st == "actionable"@ {
                            None
                        } else {
                            Some("manual enter fill requires actionable thesis, got "@ + st)
                        }
                    } else if action == "resize"@ {
                        if st == "position_open"@ {
                            None
                        } else {
                            Some("manual resize fill requires position_open thesis, got "@ + st)
                        }
                    } else if action == "exit"@ {
                        if st == "position_open"@ || st == "exiting"@ {
                            None
                        } else {
                            Some("manual exit fill requires position_open/exiting thesis, got "@ + st)
                        }
                    } else {
                        Some("manual fills are only supported for enter, resize, and exit decisions"@)
                    }
                },
            },
        },
    }
}

/// A sizing string, trimmed, when it is not blank.
pub open spec fn sizing_text(o: Option<String>) -> Option<Seq<char>> {
    match o {
        Some(x) => if trim(x@).len() > 0 {
            Some(trim(x@))
        } else {
            None
        },
        None => None,
    }
}

/// The trade side: the fill's, else the sizing's, unless it is "none".
pub open spec fn resolved_side(req: DecisionRequest) -> Option<Seq<char>> {
    let c = match req.manual_fill {
        Some(f) => match f.side {
            Some(x) => Some(x@),
            None => sizing_text(req.sizing.side),
        },
        None => sizing_text(req.sizing.side),
    };
    match c {
        Some(x) => if x == "none"@ {
            None
        } else {
            Some(x)
        },
        None => None,
    }
}

/// The instrument: the fill's, else the sizing's, else the thesis's, else equity.
pub open spec fn resolved_instrument(req: DecisionRequest, meta: Option<ThesisSnapshot>) -> Seq<char> {
    let from_fill = match req.manual_fill {
        Some(f) => opt_view(f.instrument),
        None => None,
    };
    match from_fill {
        Some(x) => x,
        None => match sizing_text(req.sizing.instrument) {
            Some(x) => x,
            None => match meta {
                Some(t) => match t.instrument {
                    Some(x) => x@,
                    None => "equity"@,
                },
                None => "equity"@,
            },
        },
    }
}

pub open spec fn nonblank(s: Seq<char>) -> Option<Seq<char>> {
    if trim(s).len() > 0 {
        Some(trim(s))
    } else {
        None
    }
}

pub open spec fn ticket_status_of(action: Seq<char>, has_fill: bool, has_thesis: bool, user_choice: Seq<char>) -> Option<Seq<char>> {
    if has_thesis && (action == "enter"@ || action == "exit"@ || action == "resize"@) {
        Some(
            if has_fill {
                "filled"@
            } else if user_choice == "rejected"@ {
                "rejected"@
            } else if user_choice == "confirmed"@ {
                "accepted"@
            } else {
                "proposed"@
            },
        )
    } else {
        None
    }
}

/// The whole decision: every check in the order it is made, and what
/// recording the decision does when they pass. `parsed` is the parse of the
/// trimmed thesis id; `thesis` the thesis that id names, if one exists.
pub open spec fn decision_plan(req: DecisionRequest, thesis: Option<ThesisSnapshot>, parsed: Option<Seq<u8>>) -> Result<DecisionPlanView, DecisionErrorView> {
    match requested_id_spec(req, parsed) {
        Err(e) => Err(e),
        Ok(id) => {
            let action = normalized(req.action@);
            let meta = match id {
                Some(_) => thesis,
                None => None,
            };
            if id is Some && thesis is None {
                Err(DecisionErrorView::ThesisNotFound(id->0))
            } else if fill_problem(action, req.manual_fill, meta) is Some {
                Err(bad(fill_problem(action, req.manual_fill, meta)->0))
            } else if resolved_side(req) matches Some(sd) && !one_of(sd, fill_sides()) {
                Err(bad("invalid trade side: "@ + resolved_side(req)->0))
            } else if !one_of(resolved_instrument(req, meta), fill_instruments()) {
                Err(bad("invalid trade instrument: "@ + resolved_instrument(req, meta)))
            } else if req.manual_fill is Some && resolved_side(req) is None {
                Err(bad("manual enter/resize/exit fill needs side"@))
            } else {
                let user_choice = normalized(req.user_choice@);
                match disagreement_spec(action, user_choice, req.disagreement_reason@, req.disagreement_detail@) {
                    Err(e) => Err(bad(e)),
                    Ok((dr, dd)) => match conviction_spec(req.human_conviction@) {
                        Err(e) => Err(bad(e)),
                        Ok(conviction) => Ok(DecisionPlanView {
                            action,
                            thesis_id: id,
                            side: resolved_side(req),
                            instrument: resolved_instrument(req, meta),
                            sizing_records_instrument: action == "enter"@ || action == "resize"@,
                            user_choice,
                            disagreement_reason: dr,
                            disagreement_detail: dd,
                            human_conviction: conviction,
                            reason: nonblank(req.reason@),
                            chart_range_seen: match req.chart_range_seen {
                                Some(c) => nonblank(c@),
                                None => None,
                            },
                            ticket_status: ticket_status_of(action, req.manual_fill is Some, meta is Some, user_choice),
                            opens_position: action == "enter"@ && req.manual_fill is Some && (meta matches Some(t)
                                && t.state@ == "actionable"@),
                        }),
                    },
                }
            }
        },
    }
}

pub open spec fn plan_view(p: DecisionPlan) -> DecisionPlanView {
    DecisionPlanView {
        action: p.action@,
        thesis_id: bytes_view(p.thesis_id),
        side: opt_view(p.side),
        instrument: p.instrument@,
        sizing_records_instrument: p.sizing_records_instrument,
        user_choice: p.user_choice@,
        disagreement_reason: opt_view(p.disagreement_reason),
        disagreement_detail: opt_view(p.disagreement_detail),
        human_conviction: p.human_conviction@,
        reason: opt_view(p.reason),
        chart_range_seen: opt_view(p.chart_range_seen),
        ticket_status: match p.ticket_status {
            Some(t) => Some(t@),
            None => None,
        },
        opens_position: p.opens_position,
    }
}

pub open spec fn error_view(e: DecisionError) -> DecisionErrorView {
    match e {
        DecisionError::BadRequest(m) => DecisionErrorView::BadRequest(m@),
        DecisionError::ThesisNotFound(b) => DecisionErrorView::ThesisNotFound(b@),
    }
}

pub open spec fn outcome_view(r: Result<DecisionPlan, DecisionError>) -> Result<DecisionPlanView, DecisionErrorView> {
    match r {
        Ok(p) => Ok(plan_view(p)),
        Err(e) => Err(error_view(e)),
    }
}

fn bad_request(m: &str) -> (r: DecisionError)
    ensures
        error_view(r) == bad(m@),
{
    DecisionError::BadRequest(owned(m))
}

fn bad_request_with(lead: &str, tail: &String) -> (r: DecisionError)
    ensures
        error_view(r) == bad(lead@ + tail@),
{
    let mut m = owned(lead);
    append_string(&mut m, tail);
    DecisionError::BadRequest(m)
}

fn is_blank(s: &str) -> (r: bool)
    ensures
        r == (trim(s@).len() == 0),
{
    let t = trim_str(s);
    chars_of(t.as_str()).len() == 0
}

fn nonblank_exec(s: &str) -> (r: Option<String>)
    ensures
        opt_view(r) == nonblank(s@),
{
    let t = trim_str(s);
    if chars_of(t.as_str()).len() == 0 {
        None
    } else {
        Some(t)
    }
}

fn sizing_text_exec(o: &Option<String>) -> (r: Option<String>)
    ensures
        opt_view(r) == sizing_text(*o),
{
    match o {
        Some(x) => nonblank_exec(x.as_str()),
        None => None,
    }
}

/// The action, sizing and thesis-id checks of a decision, given the parse
/// of its trimmed thesis id; `Ok` holds the id of the thesis to load.
pub fn requested_id_parsed(req: &DecisionRequest, parsed: Option<Vec<u8>>) -> (r: Result<Option<Vec<u8>>, DecisionError>)
    ensures
        match (r, requested_id_spec(*req, bytes_view(parsed))) {
            (Ok(a), Ok(b)) => bytes_view(a) == b,
            (Err(a), Err(b)) => error_view(a) == b,
            _ => false,
        },
{
    let action = normalize(req.action.as_str());
    let actions: Vec<&str> = vec!["enter", "exit", "skip", "resize"];
    assert(strs(actions@) =~= decision_actions());
    if !matches_any(action.as_str(), &actions) {
        return Err(bad_request("invalid decision action"));
    }
    if !req.sizing.is_object {
        return Err(bad_request("sizing must be a JSON object"));
    }
    if is_blank(req.thesis_id.as_str()) {
        return Ok(None);
    }
    match parsed {
        Some(b) => Ok(Some(b)),
        None => Err(bad_request("invalid thesis_id")),
    }
}

/// The id of the thesis that a decision names, after its action, sizing and
/// thesis-id checks.
pub fn requested_thesis_id(req: &DecisionRequest) -> (r: Result<Option<Vec<u8>>, DecisionError>)
    ensures
        match (r, requested_id_spec(*req, uuid_parse(trim(req.thesis_id@)))) {
            (Ok(a), Ok(b)) => bytes_view(a) == b,
            (Err(a), Err(b)) => error_view(a) == b,
            _ => false,
        },
{
    let t = trim_str(req.thesis_id.as_str());
    let parsed = parse_thesis_id(t.as_str());
    requested_id_parsed(req, parsed)
}

fn fill_problem_exec(action: &String, fill: &Option<ManualFillView>, meta: &Option<ThesisSnapshot>) -> (r: Option<String>)
    ensures
        opt_view(r) == fill_problem(action@, *fill, *meta),
{
    let f = match fill {
        None => {
            return None;
        },
        Some(f) => f,
    };
    if let Some(m) = &f.invalid {
        return Some(copy_string(m));
    }
    let t = match meta {
        None => {
            return Some(owned("manual fills must be linked to a thesis"));
        },
        Some(t) => t,
    };
    let st = t.state.as_str();
    if str_eq(action.as_str(), "enter") {
        if str_eq(st, "actionable") {
            None
        } else {
            let mut m = owned("manual enter fill requires actionable thesis, got ");
            append(&mut m, st);
            Some(m)
        }
    } else if str_eq(action.as_str(), "resize") {
        if str_eq(st, "position_open") {
            None
        } else {
            let mut m = owned("manual resize fill requires position_open thesis, got ");
            append(&mut m, st);
            Some(m)
        }
    } else if str_eq(action.as_str(), "exit") {
        if str_eq(st, "position_open") || str_eq(st, "exiting") {
            None
        } else {
            let mut m = owned("manual exit fill requires position_open/exiting thesis, got ");
            append(&mut m, st);
            Some(m)
        }
    } else {
        Some(owned("manual fills are only supported for enter, resize, and exit decisions"))
    }
}

fn resolved_side_exec(req: &DecisionRequest) -> (r: Option<String>)
    ensures
        opt_view(r) == resolved_side(*req),
{
    let c = match &req.manual_fill {
        Some(f) => match &f.side {
            Some(x) => Some(copy_string(x)),
            None => sizing_text_exec(&req.sizing.side),
        },
        None => sizing_text_exec(&req.sizing.side),
    };
    match c {
        Some(x) => if str_eq(x.as_str(), "none") {
            None
        } else {
            Some(x)
        },
        None => None,
    }
}

fn resolved_instrument_exec(req: &DecisionRequest, meta: &Option<ThesisSnapshot>) -> (r: String)
    ensures
        r@ == resolved_instrument(*req, *meta),
{
    if let Some(f) = &req.manual_fill {
        if let Some(x) = &f.instrument {
            return copy_string(x);
        }
    }
    match sizing_text_exec(&req.sizing.instrument) {
        Some(x) => x,
        None => match meta {
            Some(t) => match &t.instrument {
                Some(x) => copy_string(x),
                None => owned("equity"),
            },
            None => owned("equity"),
        },
    }
}

/// Plans a decision from the parse of its trimmed thesis id and the thesis
/// that id names (if any): every check in order, then what to record.
pub fn decide_parsed(req: &DecisionRequest, id: Option<Vec<u8>>, thesis: Option<ThesisSnapshot>) -> (r: Result<DecisionPlan, DecisionError>)
    ensures
        outcome_view(r) == decision_plan(*req, thesis, bytes_view(id)),
{
    let tid = match requested_id_parsed(req, id) {
        Err(e) => {
            return Err(e);
        },
        Ok(t) => t,
    };
    let action = normalize(req.action.as_str());
    let meta: Option<ThesisSnapshot> = match &tid {
        Some(b) => match thesis {
            None => {
                return Err(DecisionError::ThesisNotFound(b.clone()));
            },
            Some(t) => Some(t),
        },
        None => None,
    };
    if let Some(m) = fill_problem_exec(&action, &req.manual_fill, &meta) {
        return Err(DecisionError::BadRequest(m));
    }
    let side = resolved_side_exec(req);
    if let Some(sd) = &side {
        if !allowed_side(sd.as_str()) {
            return Err(bad_request_with("invalid trade side: ", sd));
        }
    }
    let instrument = resolved_instrument_exec(req, &meta);
    if !allowed_instrument(instrument.as_str()) {
        return Err(bad_request_with("invalid trade instrument: ", &instrument));
    }
    if req.manual_fill.is_some() && side.is_none() {
        return Err(bad_request("manual enter/resize/exit fill needs side"));
    }
    let user_choice = normalize(req.user_choice.as_str());
    let (dr, dd) = match normalize_disagreement(
        action.as_str(),
        user_choice.as_str(),
        req.disagreement_reason.as_str(),
        req.disagreement_detail.as_str(),
    ) {
        Err(e) => {
            return Err(DecisionError::BadRequest(e));
        },
        Ok(p) => p,
    };
    let conviction = match normalize_human_conviction(req.human_conviction.as_str()) {
        Err(e) => {
            return Err(DecisionError::BadRequest(e));
        },
        Ok(c) => c,
    };
    let is_enter = str_eq(action.as_str(), "enter");
    let is_resize = str_eq(action.as_str(), "resize");
    let is_exit = str_eq(action.as_str(), "exit");
    let has_fill = req.manual_fill.is_some();
    let ticket_status: Option<&'static str> = if meta.is_some() && (is_enter || is_exit || is_resize) {
        Some(
            if has_fill {
                "filled"
            } else if str_eq(user_choice.as_str(), "rejected") {
                "rejected"
            } else if str_eq(user_choice.as_str(), "confirmed") {
                "accepted"
            } else {
                "proposed"
            },
        )
    } else {
        None
    };
    let opens_position = is_enter && has_fill && match &meta {
        Some(t) => str_eq(t.state.as_str(), "actionable"),
        None => false,
    };
    let chart_range_seen = match &req.chart_range_seen {
        Some(c) => nonblank_exec(c.as_str()),
        None => None,
    };
    let reason = nonblank_exec(req.reason.as_str());
    Ok(DecisionPlan {
        action,
        thesis_id: tid,
        side,
        instrument,
        sizing_records_instrument: is_enter || is_resize,
        user_choice,
        disagreement_reason: dr,
        disagreement_detail: dd,
        human_conviction: conviction,
        reason,
        chart_range_seen,
        ticket_status,
        opens_position,
    })
}

/// Plans a decision: parses its thesis id, then decides as `decide_parsed`.
pub fn plan_decision(req: &DecisionRequest, thesis: Option<ThesisSnapshot>) -> (r: Result<DecisionPlan, DecisionError>)
    ensures
        outcome_view(r) == decision_plan(*req, thesis, uuid_parse(trim(req.thesis_id@))),
{
    let t = trim_str(req.thesis_id.as_str());
    let parsed = parse_thesis_id(t.as_str());
    decide_parsed(req, parsed, thesis)
}

// ------------------------------------------------------------------ laws

/// A recorded disagreement reason is always one of the known reasons, and
/// "other" always comes with a detail.
pub proof fn law_recorded_reason_is_known(action: Seq<char>, user_choice: Seq<char>, raw_reason: Seq<char>, raw_detail: Seq<char>)
    ensures
        disagreement_spec(action, user_choice, raw_reason, raw_detail) matches Ok((Some(r), d)) ==> one_of(
            r,
            disagreement_reasons(),
        ) && (r == "other"@ ==> d is Some),
        (action == "skip"@ || user_choice == "rejected"@) ==> !(disagreement_spec(action, user_choice, raw_reason, raw_detail) matches Ok((None, _))),
{
}

/// An accepted conviction is always low, medium or high.
pub proof fn law_conviction_is_known(raw: Seq<char>)
    ensures
        conviction_spec(raw) matches Ok(v) ==> one_of(v, human_convictions()),
{
}

/// A decision with a manual fill is only planned when it is linked to a
/// thesis and names a side; its ticket is then filled.
pub proof fn law_fill_needs_linked_thesis(req: DecisionRequest, thesis: Option<ThesisSnapshot>, parsed: Option<Seq<u8>>)
    requires
        req.manual_fill is Some,
        decision_plan(req, thesis, parsed) is Ok,
    ensures
        decision_plan(req, thesis, parsed)->Ok_0.thesis_id is Some,
        decision_plan(req, thesis, parsed)->Ok_0.side is Some,
        decision_plan(req, thesis, parsed)->Ok_0.ticket_status == Some("filled"@),
{
    reveal_strlit("enter");
    reveal_strlit("exit");
    reveal_strlit("resize");
    assert("enter"@[0] == 'e' && "exit"@[1] == 'x' && "resize"@[0] == 'r');
}

/// A ticket is recorded exactly when the decision is linked to a thesis and
/// enters, exits or resizes a position.
pub proof fn law_ticket_needs_thesis_and_trade(req: DecisionRequest, thesis: Option<ThesisSnapshot>, parsed: Option<Seq<u8>>)
    requires
        decision_plan(req, thesis, parsed) is Ok,
    ensures
        ({
            let p = decision_plan(req, thesis, parsed)->Ok_0;
            (p.ticket_status is Some) <==> (p.thesis_id is Some && (p.action == "enter"@ || p.action
                == "exit"@ || p.action == "resize"@))
        }),
{
}

} // verus!
