//! The per-symbol brain status: how fresh each research source is, whether
//! new material arrived since the thesis (or the last decline), and whether
//! the symbol is monitored at all. Instants are seconds since the Unix
//! epoch; sessions are day numbers.

use vstd::prelude::*;
use crate::session::{MIN_INSTANT, MAX_INSTANT};
use crate::sources::{
    group_health_status, group_last_checked_at, group_status, instant_in_range, last_checked, later,
    SourceHealthSnapshot,
};
use crate::text::{
    append, append_string, chars_of, copy_string, matches_any, one_of, opt_view, owned, str_eq,
    string_from_chars, strs, trim, trim_chars, upper, upper_chars,
};

verus! {

/// The health status of each source group on the page, as
/// `group_health_status` gives it.
#[derive(Clone, Debug)]
pub struct SourceGroupStatuses {
    pub price: String,
    pub news: String,
    pub estimates: String,
    pub analyst_opinion: String,
    pub profile: String,
    pub earnings: String,
    pub research: String,
    pub fundamentals: String,
    pub filings: String,
}

/// The number of bytes a character takes in UTF-8.
pub open spec fn utf8_width(c: char) -> int {
    if (c as u32) < 0x80 {
        1
    } else if (c as u32) < 0x800 {
        2
    } else if (c as u32) < 0x10000 {
        3
    } else {
        4
    }
}

/// The number of bytes a text takes in UTF-8.
pub open spec fn utf8_len(s: Seq<char>) -> int
    decreases s.len(),
{
    if s.len() == 0 {
        0
    } else {
        utf8_len(s.drop_last()) + utf8_width(s.last())
    }
}

/// The symbol a status request names: trimmed and upper-cased, refused when
/// empty or longer than 14 bytes.
pub open spec fn status_symbol(raw: Seq<char>) -> Option<Seq<char>> {
    let s = upper(trim(raw));
    if s.len() == 0 || utf8_len(s) > 14 {
        None
    } else {
        Some(s)
    }
}

proof fn lemma_utf8_len_grows(s: Seq<char>, i: int)
    requires
        0 <= i <= s.len(),
    ensures
        utf8_len(s.subrange(0, i)) <= utf8_len(s),
    decreases s.len() - i,
{
    if i < s.len() {
        lemma_utf8_len_grows(s, i + 1);
        assert(s.subrange(0, i + 1).drop_last() =~= s.subrange(0, i));
    } else {
        assert(s.subrange(0, i) =~= s);
    }
}

/// The symbol of a brain status request, or none when the request names no
/// valid symbol.
pub fn brain_status_symbol(raw: &str) -> (r: Option<String>)
    ensures
        opt_view(r) == status_symbol(raw@),
{
    let s = upper_chars(&trim_chars(&chars_of(raw)));
    if s.len() == 0 {
        return None;
    }
    let mut bytes: u64 = 0;
    let mut i: usize = 0;
    while i < s.len()
        invariant
            s@ == upper(trim(raw@)),
            i <= s@.len(),
            bytes == utf8_len(s@.subrange(0, i as int)),
            bytes <= 14,
        decreases s.len() - i,
    {
        assert(s@.subrange(0, i + 1).drop_last() =~= s@.subrange(0, i as int));
        let c = s[i];
        let w: u64 = if (c as u32) < 0x80 {
            1
        } else if (c as u32) < 0x800 {
            2
        } else if (c as u32) < 0x10000 {
            3
        } else {
            4
        };
        assert(w == utf8_width(s@[i as int]));
        assert(s@.subrange(0, i + 1).last() == s@[i as int]);
        bytes = bytes + w;
        i += 1;
        assert(bytes == utf8_len(s@.subrange(0, i as int)));
        if bytes > 14 {
            proof {
                lemma_utf8_len_grows(s@, i as int);
            }
            return None;
        }
    }
    assert(s@.subrange(0, s@.len() as int) =~= s@);
    Some(string_from_chars(&s))
}

/// The latest check of each source group.
#[derive(Clone, Debug)]
pub struct GroupCheckTimes {
    pub price: Option<i64>,
    pub news: Option<i64>,
    pub estimates: Option<i64>,
    pub analyst_opinion: Option<i64>,
    pub profile: Option<i64>,
    pub earnings: Option<i64>,
    pub research: Option<i64>,
    pub fundamentals: Option<i64>,
    pub filings: Option<i64>,
}

pub open spec fn price_sources() -> Seq<Seq<char>> {
    seq!["fmp_price"@]
}

pub open spec fn news_sources() -> Seq<Seq<char>> {
    seq!["fmp_news"@, "massive_news"@]
}

pub open spec fn estimates_sources() -> Seq<Seq<char>> {
    seq!["fmp_estimates"@]
}

pub open spec fn analyst_opinion_sources() -> Seq<Seq<char>> {
    seq!["fmp_analyst_opinion"@]
}

/// Profile and earnings both come from the profile-and-calendar source.
pub open spec fn profile_sources() -> Seq<Seq<char>> {
    seq!["fmp_profile_calendar"@]
}

pub open spec fn research_sources() -> Seq<Seq<char>> {
    seq!["web_research"@]
}

pub open spec fn fundamentals_sources() -> Seq<Seq<char>> {
    seq!["xbrl"@]
}

pub open spec fn filings_sources() -> Seq<Seq<char>> {
    seq!["edgar"@]
}

/// The status of every source group, each decided from the rows of its own
/// sources, with `freshness` holding each group's freshness class.
pub open spec fn statuses_match(r: SourceGroupStatuses, rows: Seq<SourceHealthSnapshot>, now: i64, freshness: SourceGroupStatuses) -> bool {
    &&& r.price@ == group_status(rows, price_sources(), now, freshness.price@)
    &&& r.news@ == group_status(rows, news_sources(), now, freshness.news@)
    &&& r.estimates@ == group_status(rows, estimates_sources(), now, freshness.estimates@)
    &&& r.analyst_opinion@ == group_status(rows, analyst_opinion_sources(), now, freshness.analyst_opinion@)
    &&& r.profile@ == group_status(rows, profile_sources(), now, freshness.profile@)
    &&& r.earnings@ == group_status(rows, profile_sources(), now, freshness.earnings@)
    &&& r.research@ == group_status(rows, research_sources(), now, freshness.research@)
    &&& r.fundamentals@ == group_status(rows, fundamentals_sources(), now, freshness.fundamentals@)
    &&& r.filings@ == group_status(rows, filings_sources(), now, freshness.filings@)
}

pub open spec fn check_times_match(r: GroupCheckTimes, rows: Seq<SourceHealthSnapshot>) -> bool {
    &&& r.price == last_checked(rows, price_sources())
    &&& r.news == last_checked(rows, news_sources())
    &&& r.estimates == last_checked(rows, estimates_sources())
    &&& r.analyst_opinion == last_checked(rows, analyst_opinion_sources())
    &&& r.profile == last_checked(rows, profile_sources())
    &&& r.earnings == last_checked(rows, profile_sources())
    &&& r.research == last_checked(rows, research_sources())
    &&& r.fundamentals == last_checked(rows, fundamentals_sources())
    &&& r.filings == last_checked(rows, filings_sources())
}

/// The latest check of each source group on the page, the time its
/// freshness is judged by.
pub fn brain_check_times(rows: &Vec<SourceHealthSnapshot>) -> (r: GroupCheckTimes)
    ensures
        check_times_match(r, rows@),
{
    let price: Vec<&str> = vec!["fmp_price"];
    let news: Vec<&str> = vec!["fmp_news", "massive_news"];
    let estimates: Vec<&str> = vec!["fmp_estimates"];
    let opinion: Vec<&str> = vec!["fmp_analyst_opinion"];
    let profile: Vec<&str> = vec!["fmp_profile_calendar"];
    let research: Vec<&str> = vec!["web_research"];
    let fundamentals: Vec<&str> = vec!["xbrl"];
    let filings: Vec<&str> = vec!["edgar"];
    assert(strs(price@) =~= price_sources());
    assert(strs(news@) =~= news_sources());
    assert(strs(estimates@) =~= estimates_sources());
    assert(strs(opinion@) =~= analyst_opinion_sources());
    assert(strs(profile@) =~= profile_sources());
    assert(strs(research@) =~= research_sources());
    assert(strs(fundamentals@) =~= fundamentals_sources());
    assert(strs(filings@) =~= filings_sources());
    GroupCheckTimes {
        price: group_last_checked_at(rows, &price),
        news: group_last_checked_at(rows, &news),
        estimates: group_last_checked_at(rows, &estimates),
        analyst_opinion: group_last_checked_at(rows, &opinion),
        profile: group_last_checked_at(rows, &profile),
        earnings: group_last_checked_at(rows, &profile),
        research: group_last_checked_at(rows, &research),
        fundamentals: group_last_checked_at(rows, &fundamentals),
        filings: group_last_checked_at(rows, &filings),
    }
}

/// The status of every source group on the page. `freshness` holds the
/// freshness class of each group's latest check.
pub fn brain_source_statuses(rows: &Vec<SourceHealthSnapshot>, now: i64, freshness: &SourceGroupStatuses) -> (r: SourceGroupStatuses)
    requires
        MIN_INSTANT <= now <= MAX_INSTANT,
        forall|i: int| 0 <= i < rows@.len() ==> instant_in_range((#[trigger] rows@[i]).last_started_at),
    ensures
        statuses_match(r, rows@, now, *freshness),
{
    let price: Vec<&str> = vec!["fmp_price"];
    let news: Vec<&str> = vec!["fmp_news", "massive_news"];
    let estimates: Vec<&str> = vec!["fmp_estimates"];
    let opinion: Vec<&str> = vec!["fmp_analyst_opinion"];
    let profile: Vec<&str> = vec!["fmp_profile_calendar"];
    let research: Vec<&str> = vec!["web_research"];
    let fundamentals: Vec<&str> = vec!["xbrl"];
    let filings: Vec<&str> = vec!["edgar"];
    assert(strs(price@) =~= price_sources());
    assert(strs(news@) =~= news_sources());
    assert(strs(estimates@) =~= estimates_sources());
    assert(strs(opinion@) =~= analyst_opinion_sources());
    assert(strs(profile@) =~= profile_sources());
    assert(strs(research@) =~= research_sources());
    assert(strs(fundamentals@) =~= fundamentals_sources());
    assert(strs(filings@) =~= filings_sources());
    let f = freshness;
    SourceGroupStatuses {
        price: group_health_status(rows, &price, now, f.price.as_str()),
        news: group_health_status(rows, &news, now, f.news.as_str()),
        estimates: group_health_status(rows, &estimates, now, f.estimates.as_str()),
        analyst_opinion: group_health_status(rows, &opinion, now, f.analyst_opinion.as_str()),
        profile: group_health_status(rows, &profile, now, f.profile.as_str()),
        earnings: group_health_status(rows, &profile, now, f.earnings.as_str()),
        research: group_health_status(rows, &research, now, f.research.as_str()),
        fundamentals: group_health_status(rows, &fundamentals, now, f.fundamentals.as_str()),
        filings: group_health_status(rows, &filings, now, f.filings.as_str()),
    }
}

/// What the page reads of one research task.
#[derive(Clone, Debug)]
pub struct SourceTaskView {
    pub state: String,
    pub result: Option<String>,
    pub updated_at: Option<i64>,
}

#[derive(Clone, Debug)]
pub struct BrainStatusInput {
    /// Session of the latest price bar, and the session the calendar expects.
    pub price_session: Option<i64>,
    pub expected_price_session: i64,
    pub groups: SourceGroupStatuses,
    pub tasks: Vec<SourceTaskView>,
    pub thesis_at: Option<i64>,
    pub latest_decline_at: Option<i64>,
    pub latest_evidence_item_at: Option<i64>,
}

/// What the brain loop decides from: freshness and the deltas.
#[derive(Clone, Debug)]
pub struct BrainSignals {
    pub price_status: &'static str,
    pub any_source_stale: bool,
    pub source_blocked: bool,
    pub latest_source_task_outcome_at: Option<i64>,
    pub source_task_delta: bool,
    pub evidence_delta: bool,
}

/// The status shown for a symbol, the next step and why.
#[derive(Clone, Debug)]
pub struct BrainVerdict {
    pub status: String,
    pub next_action: String,
    pub reason: String,
}

pub open spec fn price_status_of(session: Option<i64>, expected: i64) -> Seq<char> {
    match session {
        Some(d) => if d >= expected {
            "fresh"@
        } else {
            "stale"@
        },
        None => "missing"@,
    }
}

pub open spec fn stale_like() -> Seq<Seq<char>> {
    seq!["stale"@, "missing"@, "rate_limited"@, "failed"@]
}

pub open spec fn blocked_like() -> Seq<Seq<char>> {
    seq!["rate_limited"@, "failed"@]
}

/// Any source counts as stale: the price by its session, the others (all
/// but fundamentals) by their health status.
pub open spec fn any_stale(inp: BrainStatusInput) -> bool {
    let g = inp.groups;
    ||| one_of(price_status_of(inp.price_session, inp.expected_price_session), stale_like())
    ||| one_of(g.news@, stale_like())
    ||| one_of(g.estimates@, stale_like())
    ||| one_of(g.analyst_opinion@, stale_like())
    ||| one_of(g.profile@, stale_like())
    ||| one_of(g.earnings@, stale_like())
    ||| one_of(g.research@, stale_like())
    ||| one_of(g.filings@, stale_like())
}

/// Some source group is rate limited or failed.
pub open spec fn any_blocked(g: SourceGroupStatuses) -> bool {
    ||| one_of(g.price@, blocked_like())
    ||| one_of(g.news@, blocked_like())
    ||| one_of(g.estimates@, blocked_like())
    ||| one_of(g.analyst_opinion@, blocked_like())
    ||| one_of(g.profile@, blocked_like())
    ||| one_of(g.earnings@, blocked_like())
    ||| one_of(g.research@, blocked_like())
    ||| one_of(g.fundamentals@, blocked_like())
    ||| one_of(g.filings@, blocked_like())
}

pub open spec fn material(t: SourceTaskView) -> bool {
    t.state@ == "satisfied"@ && (t.result matches Some(r) && r@ == "rows_seen"@)
}

/// The latest update among tasks that satisfied with rows.
pub open spec fn latest_material(tasks: Seq<SourceTaskView>) -> Option<i64>
    decreases tasks.len(),
{
    if tasks.len() == 0 {
        None
    } else {
        let rest = latest_material(tasks.drop_last());
        if material(tasks.last()) {
            later(rest, tasks.last().updated_at)
        } else {
            rest
        }
    }
}

/// Something arrived after the thesis was last evaluated, or, without a
/// thesis, after the last decline (or at all, without one).
pub open spec fn arrived_since(at: Option<i64>, thesis_at: Option<i64>, decline_at: Option<i64>) -> bool {
    match at {
        None => false,
        Some(a) => match thesis_at {
            Some(t) => a > t,
            None => match decline_at {
                Some(d) => a > d,
                None => true,
            },
        },
    }
}

pub open spec fn signals_match(r: BrainSignals, inp: BrainStatusInput) -> bool {
    &&& r.price_status@ == price_status_of(inp.price_session, inp.expected_price_session)
    &&& r.any_source_stale == any_stale(inp)
    &&& r.source_blocked == any_blocked(inp.groups)
    &&& r.latest_source_task_outcome_at == latest_material(inp.tasks@)
    &&& r.source_task_delta == arrived_since(latest_material(inp.tasks@), inp.thesis_at, inp.latest_decline_at)
    &&& r.evidence_delta == arrived_since(inp.latest_evidence_item_at, inp.thesis_at, inp.latest_decline_at)
}

fn arrived_since_exec(at: Option<i64>, thesis_at: Option<i64>, decline_at: Option<i64>) -> (r: bool)
    ensures
        r == arrived_since(at, thesis_at, decline_at),
{
    match at {
        None => false,
        Some(a) => match thesis_at {
            Some(t) => a > t,
            None => match decline_at {
                Some(d) => a > d,
                None => true,
            },
        },
    }
}

fn latest_material_exec(tasks: &Vec<SourceTaskView>) -> (r: Option<i64>)
    ensures
        r == latest_material(tasks@),
{
    let mut latest: Option<i64> = None;
    let mut i: usize = 0;
    while i < tasks.len()
        invariant
            i <= tasks@.len(),
            latest == latest_material(tasks@.subrange(0, i as int)),
        decreases tasks.len() - i,
    {
        assert(tasks@.subrange(0, i + 1).drop_last() =~= tasks@.subrange(0, i as int));
        let t = &tasks[i];
        let is_material = str_eq(t.state.as_str(), "satisfied") && match &t.result {
            Some(x) => str_eq(x.as_str(), "rows_seen"),
            None => false,
        };
        if is_material {
            latest = match (latest, t.updated_at) {
                (Some(x), Some(y)) => Some(if x >= y { x } else { y }),
                (Some(x), None) => Some(x),
                (None, b) => b,
            };
        }
        i += 1;
    }
    assert(tasks@.subrange(0, tasks@.len() as int) =~= tasks@);
    latest
}

/// Freshness and deltas of a symbol's research, as the brain loop reads them.
pub fn brain_signals(input: &BrainStatusInput) -> (r: BrainSignals)
    ensures
        signals_match(r, *input),
{
    let price_status: &'static str = match input.price_session {
        Some(d) => if d >= input.expected_price_session { "fresh" } else { "stale" },
        None => "missing",
    };
    let stale: Vec<&str> = vec!["stale", "missing", "rate_limited", "failed"];
    assert(strs(stale@) =~= stale_like());
    let blocked: Vec<&str> = vec!["rate_limited", "failed"];
    assert(strs(blocked@) =~= blocked_like());
    let g = &input.groups;
    let any_source_stale = matches_any(price_status, &stale) || matches_any(g.news.as_str(), &stale)
        || matches_any(g.estimates.as_str(), &stale) || matches_any(g.analyst_opinion.as_str(), &stale)
        || matches_any(g.profile.as_str(), &stale) || matches_any(g.earnings.as_str(), &stale)
        || matches_any(g.research.as_str(), &stale) || matches_any(g.filings.as_str(), &stale);
    let source_blocked = matches_any(g.price.as_str(), &blocked) || matches_any(g.news.as_str(), &blocked)
        || matches_any(g.estimates.as_str(), &blocked) || matches_any(g.analyst_opinion.as_str(), &blocked)
        || matches_any(g.profile.as_str(), &blocked) || matches_any(g.earnings.as_str(), &blocked)
        || matches_any(g.research.as_str(), &blocked) || matches_any(g.fundamentals.as_str(), &blocked)
        || matches_any(g.filings.as_str(), &blocked);
    let latest = latest_material_exec(&input.tasks);
    BrainSignals {
        price_status,
        any_source_stale,
        source_blocked,
        latest_source_task_outcome_at: latest,
        source_task_delta: arrived_since_exec(latest, input.thesis_at, input.latest_decline_at),
        evidence_delta: arrived_since_exec(input.latest_evidence_item_at, input.thesis_at, input.latest_decline_at),
    }
}

pub open spec fn not_monitored_reason() -> Seq<char> {
    "symbol is not in the active universe, so the scheduled brain loop will not run until it is confirmed or added"@
}

/// The verdict shown: the brain loop's own for an active ticker; otherwise
/// the symbol is not monitored and should be added to the universe.
pub fn brain_verdict(active_ticker: bool, decided: &BrainVerdict) -> (r: BrainVerdict)
    ensures
        active_ticker ==> (r.status@ == decided.status@ && r.next_action@ == decided.next_action@
            && r.reason@ == decided.reason@),
        !active_ticker ==> (r.status@ == "not_monitored"@ && r.next_action@ == "add_to_universe"@
            && r.reason@ == not_monitored_reason()),
{
    if active_ticker {
        BrainVerdict {
            status: copy_string(&decided.status),
            next_action: copy_string(&decided.next_action),
            reason: copy_string(&decided.reason),
        }
    } else {
        BrainVerdict {
            status: owned("not_monitored"),
            next_action: owned("add_to_universe"),
            reason: owned(
                "symbol is not in the active universe, so the scheduled brain loop will not run until it is confirmed or added",
            ),
        }
    }
}

/// A sector thesis as the brain overview reads it: its name and direction,
/// either of which may be absent.
#[derive(Clone, Debug)]
pub struct SectorThesis {
    pub name: Option<String>,
    pub direction: Option<String>,
}

/// A sector whose direction goes against the macro thesis: its position in
/// the list and the summary shown.
#[derive(Clone, Debug)]
pub struct DirectionConflict {
    pub index: usize,
    pub summary: String,
}

/// A sector goes against the macro thesis when the macro is risk-off and
/// the sector bullish, or the macro risk-on and the sector bearish.
pub open spec fn directions_conflict(macro_direction: Option<Seq<char>>, direction: Seq<char>) -> bool {
    ||| macro_direction == Some("risk_off"@) && direction == "bullish"@
    ||| macro_direction == Some("risk_on"@) && direction == "bearish"@
}

pub open spec fn conflict_summary(macro_direction: Seq<char>, name: Seq<char>, direction: Seq<char>) -> Seq<char> {
    "Macro is "@ + macro_direction + " while "@ + name + " is "@ + direction
}

/// The conflicting sectors, in list order, each with its summary; a sector
/// without a name or a direction is passed over.
pub open spec fn sector_conflicts_spec(macro_direction: Option<Seq<char>>, sectors: Seq<SectorThesis>) -> Seq<(int, Seq<char>)>
    decreases sectors.len(),
{
    if sectors.len() == 0 {
        Seq::empty()
    } else {
        let rest = sector_conflicts_spec(macro_direction, sectors.drop_last());
        let s = sectors.last();
        match (s.name, s.direction) {
            (Some(n), Some(d)) => if directions_conflict(macro_direction, d@) {
                rest.push((sectors.len() - 1, conflict_summary(macro_direction->0, n@, d@)))
            } else {
                rest
            },
            _ => rest,
        }
    }
}

pub open spec fn conflicts_view(c: Seq<DirectionConflict>) -> Seq<(int, Seq<char>)> {
    c.map_values(|x: DirectionConflict| (x.index as int, x.summary@))
}

/// The sectors whose direction goes against the macro thesis.
pub fn sector_conflicts(macro_direction: &Option<String>, sectors: &Vec<SectorThesis>) -> (r: Vec<DirectionConflict>)
    ensures
        conflicts_view(r@) == sector_conflicts_spec(opt_view(*macro_direction), sectors@),
{
    let mut r: Vec<DirectionConflict> = Vec::new();
    let mut i: usize = 0;
    while i < sectors.len()
        invariant
            i <= sectors@.len(),
            conflicts_view(r@) == sector_conflicts_spec(opt_view(*macro_direction), sectors@.subrange(0, i as int)),
        decreases sectors.len() - i,
    {
        let ghost prev = r@;
        assert(sectors@.subrange(0, i + 1).drop_last() =~= sectors@.subrange(0, i as int));
        assert(sectors@.subrange(0, i + 1).last() == sectors@[i as int]);
        let s = &sectors[i];
        if let (Some(n), Some(d), Some(m)) = (&s.name, &s.direction, macro_direction) {
            let conflict = (str_eq(m.as_str(), "risk_off") && str_eq(d.as_str(), "bullish")) || (str_eq(
                m.as_str(),
                "risk_on",
            ) && str_eq(d.as_str(), "bearish"));
            if conflict {
                let mut summary = owned("Macro is ");
                append_string(&mut summary, m);
                append(&mut summary, " while ");
                append_string(&mut summary, n);
                append(&mut summary, " is ");
                append_string(&mut summary, d);
                r.push(DirectionConflict { index: i, summary });
                assert(conflicts_view(r@) =~= conflicts_view(prev).push((i as int, summary@)));
            }
        }
        i += 1;
    }
    assert(sectors@.subrange(0, sectors@.len() as int) =~= sectors@);
    r
}

/// A research group (other than price and fundamentals) that is rate
/// limited or failed both blocks the brain and counts as stale.
pub proof fn law_blocked_research_group_is_stale(inp: BrainStatusInput)
    requires
        ({
            let g = inp.groups;
            ||| one_of(g.news@, blocked_like())
            ||| one_of(g.estimates@, blocked_like())
            ||| one_of(g.analyst_opinion@, blocked_like())
            ||| one_of(g.profile@, blocked_like())
            ||| one_of(g.earnings@, blocked_like())
            ||| one_of(g.research@, blocked_like())
            ||| one_of(g.filings@, blocked_like())
        }),
    ensures
        any_blocked(inp.groups),
        any_stale(inp),
{
    assert(forall|x: Seq<char>| one_of(x, blocked_like()) ==> one_of(x, stale_like())) by {
        assert forall|x: Seq<char>| one_of(x, blocked_like()) implies one_of(x, stale_like()) by {
            let i = choose|i: int| 0 <= i < blocked_like().len() && blocked_like()[i] == x;
            assert(stale_like()[i + 2] == x);
        }
    }
}

} // verus!
