//! Health of the research sources and their tasks, as the brain status
//! page reports it. Instants are seconds since the Unix epoch.

use vstd::prelude::*;
use crate::text::{copy_string, owned, str_eq, matches_any, one_of, strs};
use crate::session::{MIN_INSTANT, MAX_INSTANT};

verus! {

/// Minutes after which a source still marked running counts as stuck.
pub const STALE_RUNNING_MINUTES: i64 = 15;

/// An absent instant, or one that the calendar can represent.
pub open spec fn instant_in_range(t: Option<i64>) -> bool {
    t matches Some(at) ==> MIN_INSTANT <= at <= MAX_INSTANT
}

/// Whole minutes a run has been going, never below zero.
pub open spec fn running_minutes(started: i64, now: i64) -> int {
    if now - started < 0 {
        0
    } else {
        (now - started) / 60
    }
}

pub open spec fn running_age(last_status: Seq<char>, last_started_at: Option<i64>, now: i64) -> Option<int> {
    if last_status == "running"@ {
        match last_started_at {
            Some(at) => Some(running_minutes(at, now)),
            None => None,
        }
    } else {
        None
    }
}

pub open spec fn stale_running(last_status: Seq<char>, last_started_at: Option<i64>, now: i64) -> bool {
    running_age(last_status, last_started_at, now) matches Some(m) && m > 15
}

/// A source's status as shown: "stale_running" for a run going on for more
/// than fifteen minutes, else its last status; with whether it is stale
/// and, for a running source with a start time, the minutes it has run.
pub fn source_health_effective_status(last_status: &str, last_started_at: Option<i64>, now: i64) -> (r: (String, bool, Option<i64>))
    requires
        MIN_INSTANT <= now <= MAX_INSTANT,
        instant_in_range(last_started_at),
    ensures
        r.0@ == (if stale_running(last_status@, last_started_at, now) {
            "stale_running"@
        } else {
            last_status@
        }),
        r.1 == stale_running(last_status@, last_started_at, now),
        match (r.2, running_age(last_status@, last_started_at, now)) {
            (Some(a), Some(b)) => a as int == b,
            (None, None) => true,
            _ => false,
        },
{
    let age: Option<i64> = if str_eq(last_status, "running") {
        match last_started_at {
            Some(at) => {
                let d = now - at;
                Some(if d < 0 { 0 } else { d / 60 })
            },
            None => None,
        }
    } else {
        None
    };
    let stale = match age {
        Some(m) => m > STALE_RUNNING_MINUTES,
        None => false,
    };
    let status = if stale { owned("stale_running") } else { owned(last_status) };
    (status, stale, age)
}

/// A health record counts as blocked when its status is rate limited or failed.
pub fn source_is_blocked(status: Option<&str>) -> (r: bool)
    ensures
        r == (status matches Some(s) && one_of(s@, seq!["rate_limited"@, "failed"@])),
{
    match status {
        Some(s) => {
            let blocked: Vec<&str> = vec!["rate_limited", "failed"];
            assert(strs(blocked@) =~= seq!["rate_limited"@, "failed"@]);
            matches_any(s, &blocked)
        },
        None => false,
    }
}

/// A source task is material once it is satisfied and saw rows.
pub fn source_task_is_material(state: &str, result: Option<&str>) -> (r: bool)
    ensures
        r == (state@ == "satisfied"@ && (result matches Some(x) && x@ == "rows_seen"@)),
{
    str_eq(state, "satisfied") && match result {
        Some(x) => str_eq(x, "rows_seen"),
        None => false,
    }
}

/// The last recorded run of one research source.
#[derive(Clone, Debug)]
pub struct SourceHealthSnapshot {
    pub source: String,
    pub last_status: String,
    pub last_success_at: Option<i64>,
    pub last_started_at: Option<i64>,
    pub last_failure_kind: Option<String>,
    pub last_error: Option<String>,
    pub retry_after_at: Option<i64>,
}

pub open spec fn in_group(row: SourceHealthSnapshot, names: Seq<Seq<char>>) -> bool {
    one_of(row.source@, names)
}

pub open spec fn rate_limited(row: SourceHealthSnapshot) -> bool {
    row.last_failure_kind matches Some(k) && k@ == "rate_limited"@
}

pub open spec fn fresh_running(row: SourceHealthSnapshot, now: i64) -> bool {
    row.last_status@ == "running"@ && !stale_running(row.last_status@, row.last_started_at, now)
}

pub open spec fn later(a: Option<i64>, b: Option<i64>) -> Option<i64> {
    match (a, b) {
        (Some(x), Some(y)) => Some(if x >= y { x } else { y }),
        (Some(x), None) => Some(x),
        (None, _) => b,
    }
}

/// The latest success or start among the group's rows.
pub open spec fn last_checked(rows: Seq<SourceHealthSnapshot>, names: Seq<Seq<char>>) -> Option<i64>
    decreases rows.len(),
{
    if rows.len() == 0 {
        None
    } else {
        let rest = last_checked(rows.drop_last(), names);
        let row = rows.last();
        if in_group(row, names) {
            later(later(rest, row.last_success_at), row.last_started_at)
        } else {
            rest
        }
    }
}

/// A group of sources reports missing without rows, then rate limited,
/// failed or running when one of its rows is (in that order, a run being
/// fresh), and otherwise the freshness of its last check.
pub open spec fn group_status(rows: Seq<SourceHealthSnapshot>, names: Seq<Seq<char>>, now: i64, freshness: Seq<char>) -> Seq<char> {
    if !(exists|i: int| 0 <= i < rows.len() && in_group(#[trigger] rows[i], names)) {
        "missing"@
    } else if exists|i: int| 0 <= i < rows.len() && in_group(#[trigger] rows[i], names) && rate_limited(rows[i]) {
        "rate_limited"@
    } else if exists|i: int| 0 <= i < rows.len() && in_group(#[trigger] rows[i], names) && rows[i].last_status@ == "failed"@ {
        "failed"@
    } else if exists|i: int| 0 <= i < rows.len() && in_group(#[trigger] rows[i], names) && fresh_running(rows[i], now) {
        "running"@
    } else {
        freshness
    }
}

/// The latest success or start among the rows of the named sources.
pub fn group_last_checked_at(rows: &Vec<SourceHealthSnapshot>, names: &Vec<&str>) -> (r: Option<i64>)
    ensures
        r == last_checked(rows@, strs(names@)),
{
    let mut latest: Option<i64> = None;
    let mut i: usize = 0;
    while i < rows.len()
        invariant
            i <= rows@.len(),
            latest == last_checked(rows@.subrange(0, i as int), strs(names@)),
        decreases rows.len() - i,
    {
        let row = &rows[i];
        assert(rows@.subrange(0, i + 1).drop_last() =~= rows@.subrange(0, i as int));
        if matches_any(row.source.as_str(), names) {
            latest = match (latest, row.last_success_at) {
                (Some(x), Some(y)) => Some(if x >= y { x } else { y }),
                (Some(x), None) => Some(x),
                (None, b) => b,
            };
            latest = match (latest, row.last_started_at) {
                (Some(x), Some(y)) => Some(if x >= y { x } else { y }),
                (Some(x), None) => Some(x),
                (None, b) => b,
            };
        }
        i += 1;
    }
    assert(rows@.subrange(0, rows@.len() as int) =~= rows@);
    latest
}

/// The status of a group of sources. `freshness` is the freshness class of
/// the group's last check, which decides when no row stands out.
pub fn group_health_status(rows: &Vec<SourceHealthSnapshot>, names: &Vec<&str>, now: i64, freshness: &str) -> (r: String)
    requires
        MIN_INSTANT <= now <= MAX_INSTANT,
        forall|i: int| 0 <= i < rows@.len() ==> instant_in_range((#[trigger] rows@[i]).last_started_at),
    ensures
        r@ == group_status(rows@, strs(names@), now, freshness@),
{
    let mut any = false;
    let mut limited = false;
    let mut failed = false;
    let mut running = false;
    let mut i: usize = 0;
    while i < rows.len()
        invariant
            i <= rows@.len(),
            MIN_INSTANT <= now <= MAX_INSTANT,
            forall|k: int| 0 <= k < rows@.len() ==> instant_in_range((#[trigger] rows@[k]).last_started_at),
            any == exists|k: int| 0 <= k < i && in_group(#[trigger] rows@[k], strs(names@)),
            limited == exists|k: int| 0 <= k < i && in_group(#[trigger] rows@[k], strs(names@)) && rate_limited(rows@[k]),
            failed == exists|k: int| 0 <= k < i && in_group(#[trigger] rows@[k], strs(names@)) && rows@[k].last_status@ == "failed"@,
            running == exists|k: int| 0 <= k < i && in_group(#[trigger] rows@[k], strs(names@)) && fresh_running(rows@[k], now),
        decreases rows.len() - i,
    {
        let row = &rows[i];
        if matches_any(row.source.as_str(), names) {
            any = true;
            let is_limited = match &row.last_failure_kind {
                Some(k) => str_eq(k.as_str(), "rate_limited"),
                None => false,
            };
            if is_limited {
                limited = true;
            }
            if str_eq(row.last_status.as_str(), "failed") {
                failed = true;
            }
            let (_, stale, _) = source_health_effective_status(row.last_status.as_str(), row.last_started_at, now);
            if str_eq(row.last_status.as_str(), "running") && !stale {
                running = true;
            }
        }
        i += 1;
    }
    if !any {
        owned("missing")
    } else if limited {
        owned("rate_limited")
    } else if failed {
        owned("failed")
    } else if running {
        owned("running")
    } else {
        owned(freshness)
    }
}

/// The latest retry time among the rows of the named sources.
pub open spec fn latest_retry(rows: Seq<SourceHealthSnapshot>, names: Seq<Seq<char>>) -> Option<i64>
    decreases rows.len(),
{
    if rows.len() == 0 {
        None
    } else {
        let rest = latest_retry(rows.drop_last(), names);
        if in_group(rows.last(), names) {
            later(rest, rows.last().retry_after_at)
        } else {
            rest
        }
    }
}

/// The first value that `pick` finds among the rows of the named sources.
pub open spec fn first_found(rows: Seq<SourceHealthSnapshot>, names: Seq<Seq<char>>, pick: spec_fn(SourceHealthSnapshot) -> Option<String>) -> Option<Seq<char>>
    decreases rows.len(),
{
    if rows.len() == 0 {
        None
    } else if in_group(rows[0], names) && pick(rows[0]) is Some {
        Some(pick(rows[0]).unwrap()@)
    } else {
        first_found(rows.drop_first(), names, pick)
    }
}

pub open spec fn pick_error(r: SourceHealthSnapshot) -> Option<String> {
    r.last_error
}

pub open spec fn pick_failure_kind(r: SourceHealthSnapshot) -> Option<String> {
    r.last_failure_kind
}

/// The latest time after which a source of the group may be retried.
pub fn group_retry_after_at(rows: &Vec<SourceHealthSnapshot>, names: &Vec<&str>) -> (r: Option<i64>)
    ensures
        r == latest_retry(rows@, strs(names@)),
{
    let mut latest: Option<i64> = None;
    let mut i: usize = 0;
    while i < rows.len()
        invariant
            i <= rows@.len(),
            latest == latest_retry(rows@.subrange(0, i as int), strs(names@)),
        decreases rows.len() - i,
    {
        assert(rows@.subrange(0, i + 1).drop_last() =~= rows@.subrange(0, i as int));
        if matches_any(rows[i].source.as_str(), names) {
            latest = match (latest, rows[i].retry_after_at) {
                (Some(x), Some(y)) => Some(if x >= y { x } else { y }),
                (Some(x), None) => Some(x),
                (None, b) => b,
            };
        }
        i += 1;
    }
    assert(rows@.subrange(0, rows@.len() as int) =~= rows@);
    latest
}

/// The last error and the failure kind that the group reports: for each,
/// the first row of the named sources that has one.
pub fn group_first_failure(rows: &Vec<SourceHealthSnapshot>, names: &Vec<&str>) -> (r: (Option<String>, Option<String>))
    ensures
        opt_text(r.0) == first_found(rows@, strs(names@), |x: SourceHealthSnapshot| pick_error(x)),
        opt_text(r.1) == first_found(rows@, strs(names@), |x: SourceHealthSnapshot| pick_failure_kind(x)),
{
    let mut error: Option<String> = None;
    let mut kind: Option<String> = None;
    let ghost pe = |x: SourceHealthSnapshot| pick_error(x);
    let ghost pk = |x: SourceHealthSnapshot| pick_failure_kind(x);
    let mut i: usize = 0;
    assert(rows@.subrange(0, rows@.len() as int) =~= rows@);
    while i < rows.len()
        invariant
            i <= rows@.len(),
            pe == (|x: SourceHealthSnapshot| pick_error(x)),
            pk == (|x: SourceHealthSnapshot| pick_failure_kind(x)),
            first_found(rows@, strs(names@), pe) == (match error {
                Some(e) => Some(e@),
                None => first_found(rows@.subrange(i as int, rows@.len() as int), strs(names@), pe),
            }),
            first_found(rows@, strs(names@), pk) == (match kind {
                Some(k) => Some(k@),
                None => first_found(rows@.subrange(i as int, rows@.len() as int), strs(names@), pk),
            }),
        decreases rows.len() - i,
    {
        let ghost rest = rows@.subrange(i as int, rows@.len() as int);
        assert(rest.drop_first() =~= rows@.subrange(i + 1, rows@.len() as int));
        assert(rest[0] == rows@[i as int]);
        if matches_any(rows[i].source.as_str(), names) {
            if error.is_none() {
                if let Some(e) = &rows[i].last_error {
                    error = Some(copy_string(e));
                }
            }
            if kind.is_none() {
                if let Some(k) = &rows[i].last_failure_kind {
                    kind = Some(copy_string(k));
                }
            }
        }
        i += 1;
    }
    (error, kind)
}

pub open spec fn opt_text(o: Option<String>) -> Option<Seq<char>> {
    match o {
        Some(s) => Some(s@),
        None => None,
    }
}

/// A source task belongs to a group when its requirement key or its action
/// is one the group lists.
pub fn task_in_group(requirement_key: Option<&str>, action: &str, requirement_keys: &Vec<&str>, actions: &Vec<&str>) -> (r: bool)
    ensures
        r == ((requirement_key matches Some(k) && one_of(k@, strs(requirement_keys@))) || one_of(action@, strs(actions@))),
{
    let by_key = match requirement_key {
        Some(k) => matches_any(k, requirement_keys),
        None => false,
    };
    by_key || matches_any(action, actions)
}

} // verus!
