//! Shadow strategy decisions: whether a strategy may change its desired
//! exposure, and which exposure it wants.
//!
//! Strategies here only state desired exposure; they never place orders.
//! Times are seconds since the epoch; configuration values are those the
//! strategy definition carries.

use vstd::prelude::*;
use crate::text::{str_eq, owned, append, append_string, chars_of, lower_chars, lower};
use crate::order::views;

verus! {

#[derive(Clone, Copy, Debug, PartialEq, Eq, Structural)]
pub enum TargetSide {
    Flat,
    Long,
    Short,
}

pub open spec fn side_text(s: TargetSide) -> Seq<char> {
    match s {
        TargetSide::Flat => "flat"@,
        TargetSide::Long => "long"@,
        TargetSide::Short => "short"@,
    }
}

pub open spec fn parse_side(v: Seq<char>) -> Option<TargetSide> {
    if v == "flat"@ {
        Some(TargetSide::Flat)
    } else if v == "long"@ {
        Some(TargetSide::Long)
    } else if v == "short"@ {
        Some(TargetSide::Short)
    } else {
        None
    }
}

impl TargetSide {
    pub fn as_str(self) -> (r: &'static str)
        ensures
            r@ == side_text(self),
    {
        match self {
            TargetSide::Flat => "flat",
            TargetSide::Long => "long",
            TargetSide::Short => "short",
        }
    }

    /// Parses a side name; any other text is refused with a message that names it.
    pub fn try_from(value: &str) -> (r: Result<TargetSide, String>)
        ensures
            r matches Ok(s) ==> parse_side(value@) == Some(s),
            r matches Err(e) ==> parse_side(value@) is None && e@ == "unsupported target side "@
                + value@,
    {
        if str_eq(value, "flat") {
            Ok(TargetSide::Flat)
        } else if str_eq(value, "long") {
            Ok(TargetSide::Long)
        } else if str_eq(value, "short") {
            Ok(TargetSide::Short)
        } else {
            let mut e = owned("unsupported target side ");
            append(&mut e, value);
            Err(e)
        }
    }
}

#[derive(Clone, Copy, Debug, PartialEq, Eq, Structural)]
pub enum StrategyDecisionKind {
    EmitDesired,
    NoChange,
    Blocked,
}

/// Counts of one pass of the strategy runner.
#[derive(Clone, Copy, Debug)]
pub struct AutomationRunSummary {
    pub evaluated: usize,
    pub emitted: usize,
    pub unchanged: usize,
    pub blocked: usize,
    pub no_features: usize,
}

impl AutomationRunSummary {
    pub fn new() -> (r: AutomationRunSummary)
        ensures
            r.evaluated == 0 && r.emitted == 0 && r.unchanged == 0 && r.blocked == 0
                && r.no_features == 0,
    {
        AutomationRunSummary { evaluated: 0, emitted: 0, unchanged: 0, blocked: 0, no_features: 0 }
    }

    /// Counts one evaluated candidate: a candidate without technical features
    /// counts as such; a blocked proof counts as blocked whatever the
    /// decision; otherwise the decision kind decides.
    pub fn record(&mut self, has_technical: bool, proof_blocked: bool, kind: StrategyDecisionKind)
        requires
            old(self).evaluated < usize::MAX,
            old(self).emitted < usize::MAX,
            old(self).unchanged < usize::MAX,
            old(self).blocked < usize::MAX,
            old(self).no_features < usize::MAX,
        ensures
            final(self).evaluated == old(self).evaluated + 1,
            final(self).no_features == old(self).no_features + (if has_technical { 0int } else { 1int }),
            final(self).blocked == old(self).blocked + (if proof_blocked || kind == StrategyDecisionKind::Blocked { 1int } else { 0int }),
            final(self).emitted == old(self).emitted + (if !proof_blocked && kind == StrategyDecisionKind::EmitDesired { 1int } else { 0int }),
            final(self).unchanged == old(self).unchanged + (if !proof_blocked && kind == StrategyDecisionKind::NoChange { 1int } else { 0int }),
    {
        self.evaluated = self.evaluated + 1;
        if !has_technical {
            self.no_features = self.no_features + 1;
        }
        if proof_blocked {
            self.blocked = self.blocked + 1;
            return;
        }
        match kind {
            StrategyDecisionKind::EmitDesired => {
                self.emitted = self.emitted + 1;
            },
            StrategyDecisionKind::NoChange => {
                self.unchanged = self.unchanged + 1;
            },
            StrategyDecisionKind::Blocked => {
                self.blocked = self.blocked + 1;
            },
        }
    }
}

/// The configuration keys the decision reads (absent when the definition
/// does not set them).
#[derive(Clone, Debug)]
pub struct StrategyConfig {
    pub max_bar_age_days: Option<i64>,
    pub validation_horizon_days: Option<i64>,
    pub long_entry_stances: Option<Vec<String>>,
    pub actionable_thesis_states: Option<Vec<String>>,
}

#[derive(Clone, Debug)]
pub struct StrategyDefinition {
    pub strategy_id: String,
    pub strategy_version: String,
    pub family: String,
    pub status: String,
    pub config_hash: String,
    pub config: StrategyConfig,
}

#[derive(Clone, Debug)]
pub struct TradePermission {
    pub permission_id: String,
    pub symbol: String,
    pub strategy_id: String,
    pub strategy_version: String,
    pub status: String,
    pub instrument_scope: String,
    pub environment_scope: String,
    pub manual_freeze: bool,
    pub expires_at: Option<i64>,
}

#[derive(Clone, Debug)]
pub struct TechnicalFeature {
    pub as_of: i64,
    pub state: String,
    pub entry_stance: String,
}

#[derive(Clone, Debug)]
pub struct ThesisFeature {
    pub state: String,
    pub direction: Option<String>,
}

#[derive(Clone, Debug)]
pub struct StrategyEvaluationInput {
    pub definition: StrategyDefinition,
    pub permission: Option<TradePermission>,
    pub technical: Option<TechnicalFeature>,
    pub thesis: Option<ThesisFeature>,
    pub now: i64,
}

/// The exposure a strategy wants, with why.
#[derive(Clone, Debug)]
pub struct TargetIntent {
    pub side: TargetSide,
    pub rationale: String,
    pub reason_codes: Vec<String>,
}

/// Largest day count a time span can be built from.
pub const MAX_SPAN_DAYS: i64 = 106_751_991_167;

pub const SECS_PER_DAY: i64 = 86_400;

// ------------------------------------------------------------------ specs

pub open spec fn opt(c: bool, s: Seq<char>) -> Seq<Seq<char>> {
    if c {
        seq![s]
    } else {
        Seq::empty()
    }
}

pub open spec fn config_max_age(c: StrategyConfig) -> int {
    let v = match c.max_bar_age_days {
        Some(v) => v as int,
        None => 5,
    };
    if v < 1 {
        1
    } else {
        v
    }
}

/// The maximum bar age stays within what a time span can hold whenever the
/// age of the technical data is measured against it: with a permission
/// and technical data.
pub open spec fn age_limit_ok(inp: StrategyEvaluationInput) -> bool {
    inp.permission is Some && inp.technical is Some ==> config_max_age(inp.definition.config) <= MAX_SPAN_DAYS
}

pub open spec fn expired_at(expires_at: Option<i64>, now: i64) -> bool {
    match expires_at {
        Some(t) => t <= now,
        None => false,
    }
}

pub open spec fn stale(now: i64, as_of: i64, max_days: int) -> bool {
    now - as_of > max_days * SECS_PER_DAY
}

/// Reasons that block any change, in the order they are reported.
pub open spec fn common_reasons(inp: StrategyEvaluationInput) -> Seq<Seq<char>> {
    let d = inp.definition;
    match inp.permission {
        None => seq!["permission_missing"@],
        Some(p) => {
            opt(
                p.strategy_id@ != d.strategy_id@ || p.strategy_version@ != d.strategy_version@,
                "permission_strategy_mismatch"@,
            ) + opt(d.status@ != "shadow"@, "strategy_not_shadow"@) + opt(
                p.status@ != "approved"@,
                "permission_not_approved"@,
            ) + opt(p.environment_scope@ != "shadow"@, "environment_not_shadow"@) + opt(
                p.manual_freeze,
                "permission_frozen"@,
            ) + opt(expired_at(p.expires_at, inp.now), "permission_expired"@) + match inp.technical {
                None => seq!["technical_missing"@],
                Some(t) => opt(
                    stale(inp.now, t.as_of, config_max_age(d.config)),
                    "technical_stale"@,
                ) + opt(
                    t.state@ == "unknown"@ || t.entry_stance@ == "wait_data"@,
                    "technical_invalid_state"@,
                ),
            }
        },
    }
}

pub open spec fn list_contains(list: Option<Vec<String>>, v: Seq<char>) -> bool {
    match list {
        Some(items) => views(items@).contains(v),
        None => false,
    }
}

pub open spec fn bullish(direction: Seq<char>) -> bool {
    let d = lower(direction);
    d == "bullish"@ || d == "long"@ || d == "up"@ || d == "positive"@
}

/// `(side, rationale, reason codes)` of an intent.
pub open spec fn intent(side: TargetSide, rationale: Seq<char>, code: Seq<char>) -> (TargetSide, Seq<char>, Seq<Seq<char>>) {
    (side, rationale, seq![code])
}

pub open spec fn long_or_blocked(p: Option<TradePermission>, code: Seq<char>, rationale: Seq<char>) -> Result<(TargetSide, Seq<char>, Seq<Seq<char>>), Seq<Seq<char>>> {
    match p {
        None => Err(seq!["permission_missing"@]),
        Some(perm) => if perm.instrument_scope@ == "equity_short_only"@ {
            Err(seq!["instrument_scope_blocks_long"@])
        } else {
            Ok(intent(TargetSide::Long, rationale, code))
        },
    }
}

pub open spec fn technical_intent(inp: StrategyEvaluationInput) -> Result<(TargetSide, Seq<char>, Seq<Seq<char>>), Seq<Seq<char>>> {
    match inp.technical {
        None => Err(seq!["technical_missing"@]),
        Some(t) => if list_contains(inp.definition.config.long_entry_stances, t.entry_stance@) {
            long_or_blocked(
                inp.permission,
                "technical_long_"@ + t.entry_stance@,
                t.state@ + " technical state with "@ + t.entry_stance@ + " entry stance."@,
            )
        } else {
            Ok(intent(
                TargetSide::Flat,
                t.entry_stance@ + " entry stance does not permit shadow entry."@,
                "technical_flat_"@ + t.entry_stance@,
            ))
        },
    }
}

pub open spec fn thesis_intent(inp: StrategyEvaluationInput) -> Result<(TargetSide, Seq<char>, Seq<Seq<char>>), Seq<Seq<char>>> {
    match inp.thesis {
        None => Ok(intent(
            TargetSide::Flat,
            "No active thesis is available for thesis-timing entry."@,
            "thesis_missing_flat"@,
        )),
        Some(th) => if !list_contains(inp.definition.config.actionable_thesis_states, th.state@) {
            Ok(intent(
                TargetSide::Flat,
                "Thesis state "@ + th.state@ + " is not actionable for entry."@,
                "thesis_not_actionable"@,
            ))
        } else if !(match th.direction {
            Some(d) => bullish(d@),
            None => false,
        }) {
            Ok(intent(TargetSide::Flat, "Thesis direction is not bullish."@, "thesis_not_bullish"@))
        } else {
            match inp.technical {
                None => Err(seq!["technical_missing"@]),
                Some(t) => if list_contains(inp.definition.config.long_entry_stances, t.entry_stance@) {
                    long_or_blocked(
                        inp.permission,
                        "thesis_actionable_bullish"@,
                        "Bullish actionable thesis and "@ + t.entry_stance@ + " technical entry stance."@,
                    )
                } else {
                    Ok(intent(
                        TargetSide::Flat,
                        "Bullish thesis is actionable, but technical entry stance is "@ + t.entry_stance@ + "."@,
                        "thesis_waiting_for_timing"@,
                    ))
                },
            }
        },
    }
}

/// The intent the strategy family asks for, or the reasons it cannot say.
pub open spec fn family_intent(inp: StrategyEvaluationInput) -> Result<(TargetSide, Seq<char>, Seq<Seq<char>>), Seq<Seq<char>>> {
    if inp.definition.family@ == "technical_timing"@ {
        technical_intent(inp)
    } else if inp.definition.family@ == "thesis_timing"@ {
        thesis_intent(inp)
    } else {
        Err(seq!["strategy_family_unsupported"@])
    }
}

pub open spec fn intent_view(t: TargetIntent) -> (TargetSide, Seq<char>, Seq<Seq<char>>) {
    (t.side, t.rationale@, views(t.reason_codes@))
}

// ------------------------------------------------------------------ exec

fn push_opt(v: &mut Vec<String>, c: bool, s: &str)
    ensures
        views(final(v)@) == views(old(v)@) + opt(c, s@),
{
    let ghost before = views(v@);
    if c {
        v.push(owned(s));
        assert(views(v@) =~= before + opt(c, s@));
    } else {
        assert(views(v@) =~= before + opt(c, s@));
    }
}

fn max_age_days(c: &StrategyConfig) -> (r: i64)
    ensures
        r == config_max_age(*c),
        r >= 1,
{
    let v = match c.max_bar_age_days {
        Some(v) => v,
        None => 5,
    };
    if v < 1 {
        1
    } else {
        v
    }
}

fn is_stale(now: i64, as_of: i64, max_days: i64) -> (r: bool)
    requires
        1 <= max_days <= MAX_SPAN_DAYS,
    ensures
        r == stale(now, as_of, max_days as int),
{
    (now as i128) - (as_of as i128) > (max_days as i128) * (SECS_PER_DAY as i128)
}

fn is_expired(expires_at: Option<i64>, now: i64) -> (r: bool)
    ensures
        r == expired_at(expires_at, now),
{
    match expires_at {
        Some(t) => t <= now,
        None => false,
    }
}

/// Reasons that block any exposure change.
pub fn common_blocked_reasons(input: &StrategyEvaluationInput) -> (r: Vec<String>)
    requires
        age_limit_ok(*input),
    ensures
        views(r@) == common_reasons(*input),
{
    let mut reasons: Vec<String> = Vec::new();
    let permission = match &input.permission {
        None => {
            reasons.push(owned("permission_missing"));
            assert(views(reasons@) =~= seq!["permission_missing"@]);
            return reasons;
        },
        Some(p) => p,
    };
    let d = &input.definition;
    assert(views(reasons@) =~= Seq::<Seq<char>>::empty());
    push_opt(&mut reasons, !(permission.strategy_id == d.strategy_id) || !(permission.strategy_version == d.strategy_version), "permission_strategy_mismatch");
    push_opt(&mut reasons, !str_eq(d.status.as_str(), "shadow"), "strategy_not_shadow");
    push_opt(&mut reasons, !str_eq(permission.status.as_str(), "approved"), "permission_not_approved");
    push_opt(&mut reasons, !str_eq(permission.environment_scope.as_str(), "shadow"), "environment_not_shadow");
    push_opt(&mut reasons, permission.manual_freeze, "permission_frozen");
    push_opt(&mut reasons, is_expired(permission.expires_at, input.now), "permission_expired");
    let ghost head = views(reasons@);
    match &input.technical {
        None => {
            reasons.push(owned("technical_missing"));
            assert(views(reasons@) =~= head + seq!["technical_missing"@]);
        },
        Some(t) => {
            let max_days = max_age_days(&d.config);
            push_opt(&mut reasons, is_stale(input.now, t.as_of, max_days), "technical_stale");
            push_opt(&mut reasons, str_eq(t.state.as_str(), "unknown") || str_eq(t.entry_stance.as_str(), "wait_data"), "technical_invalid_state");
            assert(views(reasons@) =~= head + (opt(stale(input.now, t.as_of, config_max_age(d.config)), "technical_stale"@) + opt(t.state@ == "unknown"@ || t.entry_stance@ == "wait_data"@, "technical_invalid_state"@)));
        },
    }
    reasons
}

/// Whether the configured list `key` holds `value`.
pub fn stance_list_contains(list: &Option<Vec<String>>, value: &String) -> (r: bool)
    ensures
        r == list_contains(*list, value@),
{
    match list {
        None => false,
        Some(items) => {
            let mut i: usize = 0;
            while i < items.len()
                invariant
                    i <= items@.len(),
                    *list == Some(*items),
                    forall|k: int| 0 <= k < i ==> items@[k]@ != value@,
                decreases items.len() - i,
            {
                if items[i] == *value {
                    assert(views(items@)[i as int] == value@);
                    assert(views(items@).contains(value@));
                    assert(*list == Some(*items));
                    return true;
                }
                i += 1;
            }
            assert forall|k: int| 0 <= k < views(items@).len() implies views(items@)[k] != value@ by {
                assert(views(items@)[k] == items@[k]@);
            }
            false
        },
    }
}

/// Whether a thesis direction reads as bullish (ignoring ASCII case).
pub fn is_bullish_direction(direction: &str) -> (r: bool)
    ensures
        r == bullish(direction@),
{
    let d = lower_chars(&chars_of(direction));
    let s = crate::text::string_from_chars(&d);
    str_eq(s.as_str(), "bullish") || str_eq(s.as_str(), "long") || str_eq(s.as_str(), "up")
        || str_eq(s.as_str(), "positive")
}

fn make_intent(side: TargetSide, rationale: String, code: String) -> (r: TargetIntent)
    ensures
        intent_view(r) == intent(side, rationale@, code@),
{
    let mut codes: Vec<String> = Vec::new();
    codes.push(code);
    let r = TargetIntent { side, rationale, reason_codes: codes };
    assert(views(r.reason_codes@) =~= seq![code@]);
    r
}

fn one_reason(s: &str) -> (r: Vec<String>)
    ensures
        views(r@) == seq![s@],
{
    let mut v: Vec<String> = Vec::new();
    v.push(owned(s));
    assert(views(v@) =~= seq![s@]);
    v
}

/// A long intent unless the permission forbids longs.
pub fn long_target(permission: &Option<TradePermission>, reason_code: String, rationale: String) -> (r: Result<TargetIntent, Vec<String>>)
    ensures
        match (r, long_or_blocked(*permission, reason_code@, rationale@)) {
            (Ok(t), Ok(s)) => intent_view(t) == s,
            (Err(e), Err(s)) => views(e@) == s,
            _ => false,
        },
{
    match permission {
        None => Err(one_reason("permission_missing")),
        Some(p) => {
            if str_eq(p.instrument_scope.as_str(), "equity_short_only") {
                Err(one_reason("instrument_scope_blocks_long"))
            } else {
                Ok(make_intent(TargetSide::Long, rationale, reason_code))
            }
        },
    }
}

fn prefixed(a: &str, b: &String) -> (r: String)
    ensures
        r@ == a@ + b@,
{
    let mut s = owned(a);
    append_string(&mut s, b);
    s
}

fn suffixed(b: &String, c: &str) -> (r: String)
    ensures
        r@ == b@ + c@,
{
    let mut s = b.clone();
    append(&mut s, c);
    s
}

fn concat3(a: &str, b: &String, c: &str) -> (r: String)
    ensures
        r@ == a@ + b@ + c@,
{
    let mut s = owned(a);
    append_string(&mut s, b);
    append(&mut s, c);
    s
}

/// Technical timing: long when the entry stance is one of the long stances.
pub fn technical_target(input: &StrategyEvaluationInput) -> (r: Result<TargetIntent, Vec<String>>)
    ensures
        match (r, technical_intent(*input)) {
            (Ok(t), Ok(s)) => intent_view(t) == s,
            (Err(e), Err(s)) => views(e@) == s,
            _ => false,
        },
{
    let technical = match &input.technical {
        None => return Err(one_reason("technical_missing")),
        Some(t) => t,
    };
    if stance_list_contains(&input.definition.config.long_entry_stances, &technical.entry_stance) {
        let code = prefixed("technical_long_", &technical.entry_stance);
        let mut rationale = technical.state.clone();
        append(&mut rationale, " technical state with ");
        append_string(&mut rationale, &technical.entry_stance);
        append(&mut rationale, " entry stance.");
        assert(code@ =~= "technical_long_"@ + technical.entry_stance@);
        assert(rationale@ =~= technical.state@ + " technical state with "@ + technical.entry_stance@ + " entry stance."@);
        return long_target(&input.permission, code, rationale);
    }
    let rationale = suffixed(&technical.entry_stance, " entry stance does not permit shadow entry.");
    let code = prefixed("technical_flat_", &technical.entry_stance);
    assert(rationale@ =~= technical.entry_stance@ + " entry stance does not permit shadow entry."@);
    assert(code@ =~= "technical_flat_"@ + technical.entry_stance@);
    Ok(make_intent(TargetSide::Flat, rationale, code))
}

/// Thesis timing: long only for an actionable bullish thesis with a long
/// technical stance.
pub fn thesis_target(input: &StrategyEvaluationInput) -> (r: Result<TargetIntent, Vec<String>>)
    ensures
        match (r, thesis_intent(*input)) {
            (Ok(t), Ok(s)) => intent_view(t) == s,
            (Err(e), Err(s)) => views(e@) == s,
            _ => false,
        },
{
    let thesis = match &input.thesis {
        None => {
            return Ok(make_intent(
                TargetSide::Flat,
                owned("No active thesis is available for thesis-timing entry."),
                owned("thesis_missing_flat"),
            ));
        },
        Some(t) => t,
    };
    if !stance_list_contains(&input.definition.config.actionable_thesis_states, &thesis.state) {
        return Ok(make_intent(
            TargetSide::Flat,
            concat3("Thesis state ", &thesis.state, " is not actionable for entry."),
            owned("thesis_not_actionable"),
        ));
    }
    let is_bull = match &thesis.direction {
        Some(d) => is_bullish_direction(d.as_str()),
        None => false,
    };
    if !is_bull {
        return Ok(make_intent(
            TargetSide::Flat,
            owned("Thesis direction is not bullish."),
            owned("thesis_not_bullish"),
        ));
    }
    let technical = match &input.technical {
        None => return Err(one_reason("technical_missing")),
        Some(t) => t,
    };
    if stance_list_contains(&input.definition.config.long_entry_stances, &technical.entry_stance) {
        return long_target(
            &input.permission,
            owned("thesis_actionable_bullish"),
            concat3("Bullish actionable thesis and ", &technical.entry_stance, " technical entry stance."),
        );
    }
    Ok(make_intent(
        TargetSide::Flat,
        concat3("Bullish thesis is actionable, but technical entry stance is ", &technical.entry_stance, "."),
        owned("thesis_waiting_for_timing"),
    ))
}

/// The intent of the definition's strategy family.
pub fn target_intent(input: &StrategyEvaluationInput) -> (r: Result<TargetIntent, Vec<String>>)
    ensures
        match (r, family_intent(*input)) {
            (Ok(t), Ok(s)) => intent_view(t) == s,
            (Err(e), Err(s)) => views(e@) == s,
            _ => false,
        },
{
    if str_eq(input.definition.family.as_str(), "technical_timing") {
        technical_target(input)
    } else if str_eq(input.definition.family.as_str(), "thesis_timing") {
        thesis_target(input)
    } else {
        Err(one_reason("strategy_family_unsupported"))
    }
}

/// What a strategy evaluation decided: either the reasons it is blocked, or
/// the exposure it wants.
#[derive(Clone, Debug)]
pub struct StrategyVerdict {
    pub blocked_reasons: Vec<String>,
    pub target: Option<TargetIntent>,
}

/// Common gates first; only when none blocks does the family choose an
/// intent, whose own refusal reasons then block.
pub open spec fn verdict_of(inp: StrategyEvaluationInput) -> (Seq<Seq<char>>, Option<(TargetSide, Seq<char>, Seq<Seq<char>>)>) {
    let c = common_reasons(inp);
    if c.len() > 0 {
        (c, None)
    } else {
        match family_intent(inp) {
            Ok(t) => (Seq::empty(), Some(t)),
            Err(e) => (e, None),
        }
    }
}

pub fn evaluate_strategy(input: &StrategyEvaluationInput) -> (r: StrategyVerdict)
    requires
        age_limit_ok(*input),
    ensures
        views(r.blocked_reasons@) == verdict_of(*input).0,
        match (r.target, verdict_of(*input).1) {
            (Some(t), Some(s)) => intent_view(t) == s,
            (None, None) => true,
            _ => false,
        },
{
    let reasons = common_blocked_reasons(input);
    if reasons.len() > 0 {
        return StrategyVerdict { blocked_reasons: reasons, target: None };
    }
    match target_intent(input) {
        Ok(t) => {
            assert(views(reasons@) =~= Seq::<Seq<char>>::empty());
            StrategyVerdict { blocked_reasons: reasons, target: Some(t) }
        },
        Err(e) => StrategyVerdict { blocked_reasons: e, target: None },
    }
}

/// Blocked without a target; otherwise no change exactly when the latest
/// desired position already has this side and (as the caller compared) the
/// same weight.
pub fn decision_kind(target: Option<TargetSide>, latest_side: Option<TargetSide>, weights_close: bool) -> (r: StrategyDecisionKind)
    ensures
        r == (match target {
            None => StrategyDecisionKind::Blocked,
            Some(s) => if latest_side == Some(s) && weights_close {
                StrategyDecisionKind::NoChange
            } else {
                StrategyDecisionKind::EmitDesired
            },
        }),
{
    match target {
        None => StrategyDecisionKind::Blocked,
        Some(s) => {
            if latest_side == Some(s) && weights_close {
                StrategyDecisionKind::NoChange
            } else {
                StrategyDecisionKind::EmitDesired
            }
        },
    }
}

/// The forward-validation horizon in days (configured, at least one) and
/// whether the new target side changes the previous one.
pub fn validation_plan(config: &StrategyConfig, previous_side: Option<TargetSide>, target_side: TargetSide) -> (r: (i64, bool))
    ensures
        r.0 == (match config.validation_horizon_days {
            Some(v) => if v < 1 { 1 } else { v },
            None => 20,
        }),
        r.1 == (match previous_side {
            Some(p) => p != target_side,
            None => false,
        }),
{
    let h = match config.validation_horizon_days {
        Some(v) => v,
        None => 20,
    };
    let h = if h < 1 { 1 } else { h };
    let churn = match previous_side {
        Some(p) => p != target_side,
        None => false,
    };
    (h, churn)
}

/// `(status, stale)` of the technical data: missing without features, else
/// stale when older than the configured maximum age.
pub fn data_freshness_policy_state(input: &StrategyEvaluationInput) -> (r: (&'static str, bool))
    requires
        input.technical is Some ==> config_max_age(input.definition.config) <= MAX_SPAN_DAYS,
    ensures
        (r.0@, r.1) == (match input.technical {
            None => ("missing"@, true),
            Some(t) => if stale(input.now, t.as_of, config_max_age(input.definition.config)) {
                ("stale"@, true)
            } else {
                ("fresh"@, false)
            },
        }),
{
    match &input.technical {
        None => ("missing", true),
        Some(t) => {
            let max_days = max_age_days(&input.definition.config);
            if is_stale(input.now, t.as_of, max_days) {
                ("stale", true)
            } else {
                ("fresh", false)
            }
        },
    }
}

/// Each side's name reads back as that side.
pub proof fn law_side_name_round_trip(s: TargetSide)
    ensures
        parse_side(side_text(s)) == Some(s),
{
    reveal_strlit("flat");
    reveal_strlit("long");
    reveal_strlit("short");
    assert("flat"@[0] == 'f' && "long"@[0] == 'l' && "short"@[0] == 's');
}

/// A strategy evaluation either names a target or says why it is blocked, never both.
pub proof fn law_target_or_blocking_reasons(inp: StrategyEvaluationInput)
    ensures
        (verdict_of(inp).1 is Some) <==> verdict_of(inp).0.len() == 0,
{
}

/// Every check that blocks a strategy evaluation leaves it without a target
/// and lists its reason: without a permission only the missing permission;
/// with one, a definition that is not in shadow, a permission that is not
/// approved, not for shadow, frozen, expired or for another version, and
/// missing, stale or invalid technical data.
#[verifier::spinoff_prover]
#[verifier::rlimit(80)]
pub proof fn law_common_checks_block(inp: StrategyEvaluationInput)
    ensures
        inp.permission is None ==> verdict_of(inp).0 == seq!["permission_missing"@] && verdict_of(inp).1 is None,
        inp.permission matches Some(p) ==> ({
            let d = inp.definition;
            &&& ((p.strategy_id@ != d.strategy_id@ || p.strategy_version@ != d.strategy_version@) ==> verdict_of(inp).0.contains("permission_strategy_mismatch"@) && verdict_of(inp).1 is None)
            &&& (d.status@ != "shadow"@ ==> verdict_of(inp).0.contains("strategy_not_shadow"@) && verdict_of(inp).1 is None)
            &&& (p.status@ != "approved"@ ==> verdict_of(inp).0.contains("permission_not_approved"@) && verdict_of(inp).1 is None)
            &&& (p.environment_scope@ != "shadow"@ ==> verdict_of(inp).0.contains("environment_not_shadow"@) && verdict_of(inp).1 is None)
            &&& (p.manual_freeze ==> verdict_of(inp).0.contains("permission_frozen"@) && verdict_of(inp).1 is None)
            &&& (expired_at(p.expires_at, inp.now) ==> verdict_of(inp).0.contains("permission_expired"@) && verdict_of(inp).1 is None)
            &&& (inp.technical is None ==> verdict_of(inp).0.contains("technical_missing"@) && verdict_of(inp).1 is None)
            &&& (inp.technical matches Some(t) && stale(inp.now, t.as_of, config_max_age(d.config))
                ==> verdict_of(inp).0.contains("technical_stale"@) && verdict_of(inp).1 is None)
            &&& (inp.technical matches Some(t) && (t.state@ == "unknown"@ || t.entry_stance@ == "wait_data"@)
                ==> verdict_of(inp).0.contains("technical_invalid_state"@) && verdict_of(inp).1 is None)
        }),
        common_reasons(inp).len() > 0 ==> verdict_of(inp).1 is None && verdict_of(inp).0 == common_reasons(inp),
{
    if let Some(p) = inp.permission {
        let d = inp.definition;
        let o0 = opt(p.strategy_id@ != d.strategy_id@ || p.strategy_version@ != d.strategy_version@, "permission_strategy_mismatch"@);
        let o1 = opt(d.status@ != "shadow"@, "strategy_not_shadow"@);
        let o2 = opt(p.status@ != "approved"@, "permission_not_approved"@);
        let o3 = opt(p.environment_scope@ != "shadow"@, "environment_not_shadow"@);
        let o4 = opt(p.manual_freeze, "permission_frozen"@);
        let o5 = opt(expired_at(p.expires_at, inp.now), "permission_expired"@);
        let tail = match inp.technical {
            None => seq!["technical_missing"@],
            Some(t) => opt(stale(inp.now, t.as_of, config_max_age(d.config)), "technical_stale"@) + opt(
                t.state@ == "unknown"@ || t.entry_stance@ == "wait_data"@,
                "technical_invalid_state"@,
            ),
        };
        let cr = common_reasons(inp);
        assert(cr == o0 + o1 + o2 + o3 + o4 + o5 + tail);
        let head = o0.len() + o1.len() + o2.len() + o3.len() + o4.len() + o5.len();
        if (p.strategy_id@ != d.strategy_id@ || p.strategy_version@ != d.strategy_version@) {
            assert(cr[(0) as int] == "permission_strategy_mismatch"@);
        }
        if d.status@ != "shadow"@ {
            assert(cr[(o0.len()) as int] == "strategy_not_shadow"@);
        }
        if p.status@ != "approved"@ {
            assert(cr[(o0.len() + o1.len()) as int] == "permission_not_approved"@);
        }
        if p.environment_scope@ != "shadow"@ {
            assert(cr[(o0.len() + o1.len() + o2.len()) as int] == "environment_not_shadow"@);
        }
        if p.manual_freeze {
            assert(cr[(o0.len() + o1.len() + o2.len() + o3.len()) as int] == "permission_frozen"@);
        }
        if expired_at(p.expires_at, inp.now) {
            assert(cr[(o0.len() + o1.len() + o2.len() + o3.len() + o4.len()) as int] == "permission_expired"@);
        }
        match inp.technical {
            None => {
                assert(cr[head as int] == "technical_missing"@);
            },
            Some(t) => {
                let s1 = opt(stale(inp.now, t.as_of, config_max_age(d.config)), "technical_stale"@);
                if stale(inp.now, t.as_of, config_max_age(d.config)) {
                    assert(cr[head as int] == "technical_stale"@);
                }
                if t.state@ == "unknown"@ || t.entry_stance@ == "wait_data"@ {
                    assert(cr[(head + s1.len()) as int] == "technical_invalid_state"@);
                }
            },
        }
    }
}

} // verus!
