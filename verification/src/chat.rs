//! The deterministic parts of the operator's analyst chat: how a question
//! is scoped, which symbol it names, and how requested evidence is
//! canonicalized into research actions and providers.

use vstd::prelude::*;
use crate::text::{
    append, append_string, chars_of, contains_any, is_ascii_digit, is_ascii_upper, lower,
    lower_chars, matches_any, mentions_any, one_of, owned, starts_with, starts_with_str, str_eq,
    string_from_chars, string_from_range, strs, trim, trim_str, upper, upper_chars, copy_string,
};

verus! {

/// Evidence that the analyst asks the research pipeline to gather.
#[derive(Clone, Debug)]
pub struct RequestedEvidence {
    pub requirement_key: String,
    pub source_type: String,
    pub priority: String,
    pub reason: String,
}

/// `s` cut to its first `n` characters.
pub open spec fn prefix_upto(s: Seq<char>, n: int) -> Seq<char> {
    if s.len() <= n {
        s
    } else {
        s.take(n)
    }
}

/// A chat text for the log: whole when at most `max_chars` characters,
/// else its first `max_chars` characters and an ellipsis.
pub open spec fn summary_text(value: Seq<char>, max_chars: int) -> Seq<char> {
    if value.len() <= max_chars {
        value
    } else {
        value.take(max_chars) + "..."@
    }
}

pub fn chat_summary(value: &str, max_chars: usize) -> (r: String)
    ensures
        r@ == summary_text(value@, max_chars as int),
{
    let v = chars_of(value);
    if v.len() <= max_chars {
        owned(value)
    } else {
        let mut r = string_from_range(&v, 0, max_chars);
        append(&mut r, "...");
        r
    }
}

/// Whether a provider answered with the mock placeholder.
pub fn is_mock_response(content: &str) -> (r: bool)
    ensures
        r == (trim(content@) == "{\"mock\":true}"@),
{
    let t = trim_str(content);
    str_eq(t.as_str(), "{\"mock\":true}")
}

pub open spec fn research_words() -> Seq<Seq<char>> {
    seq!["missing"@, "search"@, "source"@, "evidence"@, "article"@, "news"@]
}

/// The fallback asks for research when the question asks for sources or
/// the evidence package holds no evidence items. `evidence_items`: how many
/// the package lists, `None` where it has no such list.
pub fn fallback_should_request_evidence(question: &str, evidence_items: Option<usize>) -> (r: bool)
    ensures
        r == (mentions_any(lower(question@), research_words()) || match evidence_items {
            Some(n) => n == 0,
            None => true,
        }),
{
    let q = lower_chars(&chars_of(question));
    let words: Vec<&str> = vec!["missing", "search", "source", "evidence", "article", "news"];
    assert(strs(words@) =~= research_words());
    let asks_for_research = contains_any(&q, &words);
    let no_evidence = match evidence_items {
        Some(n) => n == 0,
        None => true,
    };
    asks_for_research || no_evidence
}

pub open spec fn evidence_view(e: RequestedEvidence) -> (Seq<char>, Seq<char>, Seq<char>, Seq<char>) {
    (e.requirement_key@, e.source_type@, e.priority@, e.reason@)
}

pub open spec fn opt_str_view(s: Option<&str>) -> Option<Seq<char>> {
    match s {
        Some(t) => Some(t@),
        None => None,
    }
}

/// The research request made when the analyst cannot answer from loaded evidence.
pub fn default_product_research_request(question: &str, symbol: Option<&str>) -> (r: RequestedEvidence)
    ensures
        evidence_view(r) == (
            "product_research"@,
            "web_research"@,
            "high"@,
            "Operator analyst question needs fresh public research for "@ + match symbol {
                Some(s) => s@,
                None => "current scope"@,
            } + ": "@ + question@,
        ),
{
    let mut reason = owned("Operator analyst question needs fresh public research for ");
    match symbol {
        Some(s) => append(&mut reason, s),
        None => append(&mut reason, "current scope"),
    }
    append(&mut reason, ": ");
    append(&mut reason, question);
    RequestedEvidence {
        requirement_key: owned("product_research"),
        source_type: owned("web_research"),
        priority: owned("high"),
        reason,
    }
}

pub open spec fn symbol_char(c: char) -> bool {
    is_ascii_upper(c) || is_ascii_digit(c) || c == '.' || c == '-'
}

/// A ticker symbol as the chat accepts it: trimmed and upper-cased, one to
/// ten characters, each an ASCII capital, digit, dot or hyphen.
pub open spec fn chat_symbol(raw: Seq<char>) -> Option<Seq<char>> {
    let s = upper(trim(raw));
    if 0 < s.len() <= 10 && (forall|i: int| 0 <= i < s.len() ==> symbol_char(#[trigger] s[i])) {
        Some(s)
    } else {
        None
    }
}

pub fn normalize_chat_symbol(raw: &str) -> (r: Option<String>)
    ensures
        match (r, chat_symbol(raw@)) {
            (Some(a), Some(b)) => a@ == b,
            (None, None) => true,
            _ => false,
        },
{
    let t = trim_str(raw);
    let s = upper_chars(&chars_of(t.as_str()));
    if s.len() == 0 || s.len() > 10 {
        return None;
    }
    let mut i: usize = 0;
    while i < s.len()
        invariant
            i <= s@.len(),
            s@ == upper(trim(raw@)),
            forall|k: int| 0 <= k < i ==> symbol_char(#[trigger] s@[k]),
        decreases s.len() - i,
    {
        let c = s[i];
        let ok = ('A' <= c && c <= 'Z') || ('0' <= c && c <= '9') || c == '.' || c == '-';
        if !ok {
            assert(upper(trim(raw@))[i as int] == s@[i as int]);
            assert(!symbol_char(upper(trim(raw@))[i as int]));
            return None;
        }
        i += 1;
    }
    Some(string_from_chars(&s))
}

pub open spec fn technical_words() -> Seq<Seq<char>> {
    seq!["rsi"@, "sma"@, "chart"@, "technical"@, "entry"@, "timing"@, "200-day"@, "200 day"@]
}

pub open spec fn decision_words() -> Seq<Seq<char>> {
    seq!["decision"@, "position"@, "enter"@, "exit"@, "trade"@, "size"@]
}

pub open spec fn macro_words() -> Seq<Seq<char>> {
    seq!["macro"@, "rates"@, "credit"@, "liquidity"@, "market regime"@]
}

pub open spec fn theme_words() -> Seq<Seq<char>> {
    seq!["sector"@, "theme"@, "metals"@, "copper"@, "wheat"@]
}

/// The scope of a question, from the words it uses (in ASCII lower case),
/// checked in this order: technical, decision, macro, theme; else the
/// symbol in view, else macro.
pub open spec fn chat_scope(question: Seq<char>, has_symbol: bool) -> Seq<char> {
    let q = lower(question);
    if mentions_any(q, technical_words()) {
        "technical"@
    } else if mentions_any(q, decision_words()) {
        "decision"@
    } else if mentions_any(q, macro_words()) {
        "macro"@
    } else if mentions_any(q, theme_words()) {
        "theme"@
    } else if has_symbol {
        "symbol"@
    } else {
        "macro"@
    }
}

pub fn classify_chat_scope(question: &str, symbol: Option<&str>) -> (r: String)
    ensures
        r@ == chat_scope(question@, symbol is Some),
{
    let q = lower_chars(&chars_of(question));
    let technical: Vec<&str> = vec!["rsi", "sma", "chart", "technical", "entry", "timing", "200-day", "200 day"];
    assert(strs(technical@) =~= technical_words());
    if contains_any(&q, &technical) {
        return owned("technical");
    }
    let decision: Vec<&str> = vec!["decision", "position", "enter", "exit", "trade", "size"];
    assert(strs(decision@) =~= decision_words());
    if contains_any(&q, &decision) {
        return owned("decision");
    }
    let macro_: Vec<&str> = vec!["macro", "rates", "credit", "liquidity", "market regime"];
    assert(strs(macro_@) =~= macro_words());
    if contains_any(&q, &macro_) {
        return owned("macro");
    }
    let theme: Vec<&str> = vec!["sector", "theme", "metals", "copper", "wheat"];
    assert(strs(theme@) =~= theme_words());
    if contains_any(&q, &theme) {
        return owned("theme");
    }
    if symbol.is_some() {
        owned("symbol")
    } else {
        owned("macro")
    }
}

pub open spec fn chat_scopes() -> Seq<Seq<char>> {
    seq!["symbol"@, "theme"@, "macro"@, "technical"@, "decision"@]
}

/// A requested scope, normalized, when it is a known one; else the scope
/// that the question's words give.
pub open spec fn scope_spec(raw: Option<Seq<char>>, question: Seq<char>, has_symbol: bool) -> Seq<char> {
    match raw {
        Some(s) => if one_of(lower(trim(s)), chat_scopes()) {
            lower(trim(s))
        } else {
            chat_scope(question, has_symbol)
        },
        None => chat_scope(question, has_symbol),
    }
}

pub fn normalize_chat_scope(raw: Option<&str>, question: &str, symbol: Option<&str>) -> (r: String)
    ensures
        r@ == scope_spec(opt_str_view(raw), question@, symbol is Some),
{
    if let Some(scope) = raw {
        let t = trim_str(scope);
        let l = string_from_chars(&lower_chars(&chars_of(t.as_str())));
        let known: Vec<&str> = vec!["symbol", "theme", "macro", "technical", "decision"];
        assert(strs(known@) =~= chat_scopes());
        if matches_any(l.as_str(), &known) {
            return l;
        }
    }
    classify_chat_scope(question, symbol)
}

pub open spec fn requirement_keys() -> Seq<Seq<char>> {
    seq![
        "price_history"@,
        "company_profile"@,
        "company_facts"@,
        "earnings_calendar"@,
        "recent_news"@,
        "analyst_estimates"@,
        "analyst_opinion"@,
        "product_research"@,
    ]
}

pub open spec fn priorities() -> Seq<Seq<char>> {
    seq!["blocking"@, "high"@, "medium"@, "low"@]
}

/// The source type that serves an evidence requirement.
pub open spec fn source_type_of(key: Seq<char>) -> Seq<char> {
    if key == "price_history"@ {
        "price"@
    } else if key == "company_profile"@ {
        "profile"@
    } else if key == "company_facts"@ {
        "fundamentals"@
    } else if key == "earnings_calendar"@ {
        "catalysts"@
    } else if key == "recent_news"@ {
        "news"@
    } else if key == "analyst_estimates"@ {
        "estimates"@
    } else if key == "analyst_opinion"@ {
        "analyst_opinion"@
    } else {
        "web_research"@
    }
}

pub fn source_type_for_requirement(requirement_key: &str) -> (r: &'static str)
    ensures
        r@ == source_type_of(requirement_key@),
{
    if str_eq(requirement_key, "price_history") {
        "price"
    } else if str_eq(requirement_key, "company_profile") {
        "profile"
    } else if str_eq(requirement_key, "company_facts") {
        "fundamentals"
    } else if str_eq(requirement_key, "earnings_calendar") {
        "catalysts"
    } else if str_eq(requirement_key, "recent_news") {
        "news"
    } else if str_eq(requirement_key, "analyst_estimates") {
        "estimates"
    } else if str_eq(requirement_key, "analyst_opinion") {
        "analyst_opinion"
    } else {
        "web_research"
    }
}

/// The canonical form of a requested evidence item: a known requirement key
/// (else product research), its source type, a known priority (else medium)
/// and a trimmed reason of at most 500 characters (else a default reason).
pub open spec fn canonical_spec(req: (Seq<char>, Seq<char>, Seq<char>, Seq<char>)) -> (Seq<char>, Seq<char>, Seq<char>, Seq<char>) {
    let key = if one_of(trim(req.0), requirement_keys()) {
        trim(req.0)
    } else {
        "product_research"@
    };
    let priority = if one_of(trim(req.2), priorities()) {
        trim(req.2)
    } else {
        "medium"@
    };
    let reason = if trim(req.3).len() == 0 {
        "Chat analyst requested "@ + key
    } else {
        prefix_upto(trim(req.3), 500)
    };
    (key, source_type_of(key), priority, reason)
}

pub fn canonical_requested_evidence(req: &RequestedEvidence) -> (r: RequestedEvidence)
    ensures
        evidence_view(r) == canonical_spec(evidence_view(*req)),
{
    let key_in = trim_str(req.requirement_key.as_str());
    let keys: Vec<&str> = vec![
        "price_history",
        "company_profile",
        "company_facts",
        "earnings_calendar",
        "recent_news",
        "analyst_estimates",
        "analyst_opinion",
        "product_research",
    ];
    assert(strs(keys@) =~= requirement_keys());
    let key = if matches_any(key_in.as_str(), &keys) {
        key_in
    } else {
        owned("product_research")
    };
    let priority_in = trim_str(req.priority.as_str());
    let known: Vec<&str> = vec!["blocking", "high", "medium", "low"];
    assert(strs(known@) =~= priorities());
    let priority = if matches_any(priority_in.as_str(), &known) {
        priority_in
    } else {
        owned("medium")
    };
    let reason_in = chars_of(trim_str(req.reason.as_str()).as_str());
    let reason = if reason_in.len() == 0 {
        let mut r = owned("Chat analyst requested ");
        append_string(&mut r, &key);
        r
    } else if reason_in.len() <= 500 {
        string_from_chars(&reason_in)
    } else {
        string_from_range(&reason_in, 0, 500)
    };
    let source_type = owned(source_type_for_requirement(key.as_str()));
    RequestedEvidence { requirement_key: key, source_type, priority, reason }
}

/// The research actions that gather an evidence requirement.
pub open spec fn requirement_actions(key: Seq<char>) -> Seq<Seq<char>> {
    if key == "price_history"@ {
        seq!["fmp_price_backfill"@]
    } else if key == "company_facts"@ {
        seq!["sec_company_tickers_cik_lookup"@, "sec_companyfacts_xbrl"@]
    } else if key == "recent_news"@ {
        seq!["fmp_news"@, "massive_news"@, "llm_sentiment_scoring"@]
    } else if key == "analyst_estimates"@ {
        seq!["fmp_analyst_estimates"@]
    } else if key == "analyst_opinion"@ {
        seq![
            "fmp_price_target_consensus"@,
            "fmp_grades_historical"@,
            "fmp_price_target_news"@,
            "fmp_grades_latest_news"@,
        ]
    } else if key == "company_profile"@ {
        seq!["fmp_company_profile"@]
    } else if key == "earnings_calendar"@ {
        seq!["fmp_earnings_calendar"@]
    } else {
        seq!["gdelt_doc_search"@, "bing_news_rss_search"@]
    }
}

pub fn actions_for_requirement(requirement_key: &str) -> (r: Vec<&'static str>)
    ensures
        strs(r@) == requirement_actions(requirement_key@),
{
    let r: Vec<&'static str> = if str_eq(requirement_key, "price_history") {
        vec!["fmp_price_backfill"]
    } else if str_eq(requirement_key, "company_facts") {
        vec!["sec_company_tickers_cik_lookup", "sec_companyfacts_xbrl"]
    } else if str_eq(requirement_key, "recent_news") {
        vec!["fmp_news", "massive_news", "llm_sentiment_scoring"]
    } else if str_eq(requirement_key, "analyst_estimates") {
        vec!["fmp_analyst_estimates"]
    } else if str_eq(requirement_key, "analyst_opinion") {
        vec![
            "fmp_price_target_consensus",
            "fmp_grades_historical",
            "fmp_price_target_news",
            "fmp_grades_latest_news",
        ]
    } else if str_eq(requirement_key, "company_profile") {
        vec!["fmp_company_profile"]
    } else if str_eq(requirement_key, "earnings_calendar") {
        vec!["fmp_earnings_calendar"]
    } else {
        vec!["gdelt_doc_search", "bing_news_rss_search"]
    };
    assert(strs(r@) =~= requirement_actions(requirement_key@));
    r
}

/// The provider that runs a research action: named by the action's prefix,
/// else gdelt for web research and the system for anything else.
pub open spec fn provider_of(action: Seq<char>, source_type: Seq<char>) -> Seq<char> {
    if starts_with(action, "fmp_"@) {
        "fmp"@
    } else if starts_with(action, "massive_"@) {
        "massive"@
    } else if starts_with(action, "sec_"@) {
        "sec"@
    } else if starts_with(action, "gdelt_"@) {
        "gdelt"@
    } else if starts_with(action, "bing_"@) {
        "bing"@
    } else if starts_with(action, "llm_"@) {
        "llm"@
    } else if source_type == "web_research"@ {
        "gdelt"@
    } else {
        "system"@
    }
}

pub fn provider_for_action(action: &str, source_type: &str) -> (r: &'static str)
    ensures
        r@ == provider_of(action@, source_type@),
{
    if starts_with_str(action, "fmp_") {
        "fmp"
    } else if starts_with_str(action, "massive_") {
        "massive"
    } else if starts_with_str(action, "sec_") {
        "sec"
    } else if starts_with_str(action, "gdelt_") {
        "gdelt"
    } else if starts_with_str(action, "bing_") {
        "bing"
    } else if starts_with_str(action, "llm_") {
        "llm"
    } else if str_eq(source_type, "web_research") {
        "gdelt"
    } else {
        "system"
    }
}

/// One piece of evidence an answer cites.
#[derive(Clone, Debug)]
pub struct ChatEvidenceRef {
    pub source: String,
    pub evidence_id: Option<i64>,
    pub summary: String,
    pub observed_at: Option<String>,
}

/// What an answer says of the chart.
#[derive(Clone, Debug)]
pub struct ChatTechnicalRead {
    pub state: Option<String>,
    pub summary: Option<String>,
    pub timing_implication: Option<String>,
}

/// What an answer does to the standing thesis.
#[derive(Clone, Debug)]
pub struct ChatThesisImpact {
    pub kind: String,
    pub reason: Option<String>,
}

/// Whether an answer asks for the operator's attention.
#[derive(Clone, Debug)]
pub struct ChatAttentionRequest {
    pub kind: String,
    pub reason: Option<String>,
}

impl Default for ChatThesisImpact {
    fn default() -> (r: Self)
        ensures
            r.kind@ == "no_change"@,
            r.reason is None,
    {
        ChatThesisImpact { kind: owned("no_change"), reason: None }
    }
}

impl Default for ChatAttentionRequest {
    fn default() -> (r: Self)
        ensures
            r.kind@ == "none"@,
            r.reason is None,
    {
        ChatAttentionRequest { kind: owned("none"), reason: None }
    }
}

#[derive(Clone, Debug)]
pub struct ChatAnalystAnswer {
    pub answer: String,
    pub confidence: String,
    pub evidence_used: Vec<ChatEvidenceRef>,
    pub technical_read: ChatTechnicalRead,
    pub thesis_impact: ChatThesisImpact,
    pub requested_evidence: Vec<RequestedEvidence>,
    pub attention_request: ChatAttentionRequest,
}

/// What the fallback reads of one item of the evidence package.
#[derive(Clone, Debug)]
pub struct EvidenceItem {
    pub source: Option<String>,
    pub id: Option<i64>,
    pub summary: Option<String>,
    pub observed_at: Option<String>,
}

/// What the fallback reads of the evidence package: the chart's state and
/// summary, and the evidence items (`None` where the package lists none).
#[derive(Clone, Debug)]
pub struct EvidencePackage {
    pub technical_state: Option<String>,
    pub technical_summary: Option<String>,
    pub evidence_items: Option<Vec<EvidenceItem>>,
}

pub open spec fn opt_string_view(o: Option<String>) -> Option<Seq<char>> {
    match o {
        Some(s) => Some(s@),
        None => None,
    }
}

pub open spec fn or_default(o: Option<String>, d: Seq<char>) -> Seq<char> {
    match o {
        Some(s) => s@,
        None => d,
    }
}

/// The reference an answer makes to an evidence item.
pub open spec fn evidence_ref_matches(r: ChatEvidenceRef, item: EvidenceItem) -> bool {
    &&& r.source@ == or_default(item.source, "evidence_item"@)
    &&& r.evidence_id == item.id
    &&& r.summary@ == or_default(item.summary, "evidence fact"@)
    &&& opt_string_view(r.observed_at) == opt_string_view(item.observed_at)
}

pub open spec fn package_items(p: EvidencePackage) -> Seq<EvidenceItem> {
    match p.evidence_items {
        Some(v) => v@,
        None => Seq::empty(),
    }
}

pub open spec fn package_item_count(p: EvidencePackage) -> Option<usize> {
    match p.evidence_items {
        Some(v) => Some(v@.len() as usize),
        None => None,
    }
}

pub open spec fn fallback_answer_text(symbol: Option<Seq<char>>, summary: Option<Seq<char>>) -> Seq<char> {
    let who = match symbol {
        Some(s) => s,
        None => "the selected scope"@,
    };
    match summary {
        Some(s) => who + ": "@ + s
            + ". This is timing context, not a thesis mutation. Use the cited evidence and requested evidence list to decide what to refresh before acting."@,
        None => who
            + ": I can answer only from the loaded evidence package. No technical summary was available, so missing evidence should be queued before drawing a stronger conclusion."@,
    }
}

pub open spec fn timing_text(state: Seq<char>) -> Seq<char> {
    if state == "extended"@ {
        "standing thesis may remain intact, but timing quality is lower until extension cools or a fresh trigger appears"@
    } else {
        "treat chart state as timing context separate from thesis direction"@
    }
}

/// The answer the analyst falls back to when no model answered: it cites
/// at most five evidence items, reads the chart as timing context, asks for
/// research when the question or the missing evidence calls for it, and
/// changes no thesis (though an extended chart weakens a technical one).
pub fn fallback_chat_answer(question: &str, scope: &str, symbol: Option<&str>, package: &EvidencePackage) -> (r: ChatAnalystAnswer)
    ensures
        ({
            let items = package_items(*package);
            let n = if items.len() <= 5 { items.len() as int } else { 5 };
            &&& r.evidence_used@.len() == n
            &&& forall|i: int| 0 <= i < n ==> evidence_ref_matches(#[trigger] r.evidence_used@[i], items[i])
        }),
        r.answer@ == fallback_answer_text(opt_str_view(symbol), opt_string_view(package.technical_summary)),
        r.confidence@ == (if package_items(*package).len() == 0 { "low"@ } else { "medium"@ }),
        opt_string_view(r.technical_read.state) == Some(or_default(package.technical_state, "unknown"@)),
        opt_string_view(r.technical_read.summary) == opt_string_view(package.technical_summary),
        opt_string_view(r.technical_read.timing_implication) == Some(
            timing_text(or_default(package.technical_state, "unknown"@)),
        ),
        r.thesis_impact.kind@ == (if scope@ == "technical"@ && or_default(package.technical_state, "unknown"@)
            == "extended"@ {
            "weakens"@
        } else {
            "no_change"@
        }),
        opt_string_view(r.thesis_impact.reason) == Some(
            "Deterministic fallback used loaded evidence only; no thesis was mutated."@,
        ),
        r.requested_evidence@.len() == (if mentions_any(lower(question@), research_words()) || match package_item_count(*package) {
            Some(k) => k == 0,
            None => true,
        } {
            1int
        } else {
            0int
        }),
        r.requested_evidence@.len() == 1 ==> evidence_view(r.requested_evidence@[0]) == (
            "product_research"@,
            "web_research"@,
            "high"@,
            "Operator analyst question needs fresh public research for "@ + match symbol {
                Some(s) => s@,
                None => "current scope"@,
            } + ": "@ + question@,
        ),
        r.attention_request.kind@ == "none"@,
        r.attention_request.reason is None,
{
    let state = match &package.technical_state {
        Some(s) => copy_string(s),
        None => owned("unknown"),
    };
    let summary = match &package.technical_summary {
        Some(s) => Some(copy_string(s)),
        None => None,
    };
    let mut evidence_used: Vec<ChatEvidenceRef> = Vec::new();
    let item_count: Option<usize> = match &package.evidence_items {
        Some(items) => {
            let ghost all = items@;
            let mut i: usize = 0;
            while i < items.len() && i < 5
                invariant
                    i <= items@.len(),
                    i <= 5,
                    all == items@,
                    evidence_used@.len() == i,
                    forall|k: int| 0 <= k < i ==> evidence_ref_matches(#[trigger] evidence_used@[k], all[k]),
                decreases items.len() - i,
            {
                let item = &items[i];
                let source = match &item.source {
                    Some(s) => copy_string(s),
                    None => owned("evidence_item"),
                };
                let summary = match &item.summary {
                    Some(s) => copy_string(s),
                    None => owned("evidence fact"),
                };
                let observed_at = match &item.observed_at {
                    Some(s) => Some(copy_string(s)),
                    None => None,
                };
                evidence_used.push(ChatEvidenceRef { source, evidence_id: item.id, summary, observed_at });
                i += 1;
            }
            Some(items.len())
        },
        None => None,
    };
    let requested_evidence = if fallback_should_request_evidence(question, item_count) {
        vec![default_product_research_request(question, symbol)]
    } else {
        Vec::new()
    };
    let mut answer = match symbol {
        Some(s) => owned(s),
        None => owned("the selected scope"),
    };
    match &summary {
        Some(s) => {
            append(&mut answer, ": ");
            append_string(&mut answer, s);
            append(
                &mut answer,
                ". This is timing context, not a thesis mutation. Use the cited evidence and requested evidence list to decide what to refresh before acting.",
            );
        },
        None => {
            append(
                &mut answer,
                ": I can answer only from the loaded evidence package. No technical summary was available, so missing evidence should be queued before drawing a stronger conclusion.",
            );
        },
    }
    let extended = str_eq(state.as_str(), "extended");
    let timing = if extended {
        owned(
            "standing thesis may remain intact, but timing quality is lower until extension cools or a fresh trigger appears",
        )
    } else {
        owned("treat chart state as timing context separate from thesis direction")
    };
    let impact = if str_eq(scope, "technical") && extended {
        owned("weakens")
    } else {
        owned("no_change")
    };
    let confidence = if evidence_used.len() == 0 { owned("low") } else { owned("medium") };
    ChatAnalystAnswer {
        answer,
        confidence,
        evidence_used,
        technical_read: ChatTechnicalRead { state: Some(state), summary, timing_implication: Some(timing) },
        thesis_impact: ChatThesisImpact {
            kind: impact,
            reason: Some(owned("Deterministic fallback used loaded evidence only; no thesis was mutated.")),
        },
        requested_evidence,
        attention_request: ChatAttentionRequest::default(),
    }
}

// ------------------------------------------------------------------ laws

/// Canonical evidence always names a known requirement, the source type that
/// serves it, and a known priority.
pub proof fn law_canonical_evidence_is_canonical(req: (Seq<char>, Seq<char>, Seq<char>, Seq<char>))
    ensures
        one_of(canonical_spec(req).0, requirement_keys()),
        canonical_spec(req).1 == source_type_of(canonical_spec(req).0),
        one_of(canonical_spec(req).2, priorities()),
{
    assert(requirement_keys()[7] == "product_research"@);
    assert(priorities()[2] == "medium"@);
}

/// The chat's scope is always one of the five known scopes.
pub proof fn law_scope_is_known(raw: Option<Seq<char>>, question: Seq<char>, has_symbol: bool)
    ensures
        one_of(scope_spec(raw, question, has_symbol), chat_scopes()),
{
    assert(chat_scopes()[0] == "symbol"@);
    assert(chat_scopes()[1] == "theme"@);
    assert(chat_scopes()[2] == "macro"@);
    assert(chat_scopes()[3] == "technical"@);
    assert(chat_scopes()[4] == "decision"@);
}

} // verus!
