//! Goalpost detector: compares a thesis' original invalidation conditions
//! with its updated ones and reports whether the update weakened them
//! (dropped or loosened a condition) or needs human review (a narrative
//! changed, a condition changed type, or every condition was rewritten).

use vstd::prelude::*;
use crate::decimal::{Numeral, NumeralView, num_less, num_lt, parse_numeral, wf};
use crate::order::{lex_lt, lex_lt_chars, sorted_enum, sorted_strict, views, lemma_lex_total, lemma_lex_trans, lemma_lex_irrefl, lemma_sorted_enum, lemma_sorted_enum_empty, lemma_sorted_enum_exists};
use crate::text::{copy_string, chars_of, trim, is_ws, occurs_at, occurs_at_exec, is_ws_char, trim_chars, string_from_chars, append, append_string};

verus! {

/// One invalidation condition. Either form carries a stable `name` by which
/// versions are matched.
#[derive(Clone, Debug)]
pub enum Condition {
    Quantitative { name: String, expr: String },
    Narrative { name: String, assertion: String },
}

/// Verdict on a thesis version transition.
#[derive(Clone, Debug)]
pub struct Report {
    pub weakened: bool,
    pub needs_review: bool,
    pub dropped: Vec<String>,
    pub loosened: Vec<String>,
    pub added: Vec<String>,
    pub reasons: Vec<String>,
}

/// Threshold comparison operators of a simple expression.
#[derive(Clone, Copy, Debug, PartialEq, Eq, Structural)]
pub enum ThresholdOp {
    Le,
    Ge,
    Eq,
    Ne,
    Lt,
    Gt,
}

/// Operators grouped by direction: `<`/`<=`, `>`/`>=`, `==`, `!=`.
#[derive(Clone, Copy, Debug, PartialEq, Eq, Structural)]
pub enum OpFamily {
    Below,
    Above,
    Equal,
    NotEqual,
}

/// A parsed `field op number` expression.
pub struct SimpleExpr {
    pub field: String,
    pub op: ThresholdOp,
    pub value: Numeral,
}

pub struct SimpleExprView {
    pub field: Seq<char>,
    pub op: ThresholdOp,
    pub value: NumeralView,
}

impl View for SimpleExpr {
    type V = SimpleExprView;

    open spec fn view(&self) -> SimpleExprView {
        SimpleExprView { field: self.field@, op: self.op, value: self.value@ }
    }
}

// ------------------------------------------------------------------ specs

pub open spec fn cond_name(c: Condition) -> Seq<char> {
    match c {
        Condition::Quantitative { name, .. } => name@,
        Condition::Narrative { name, .. } => name@,
    }
}

/// Conditions keyed by name; unnamed conditions are ignored and a later
/// condition replaces an earlier one with the same name.
pub open spec fn by_name(cs: Seq<Condition>) -> Map<Seq<char>, Condition>
    decreases cs.len(),
{
    if cs.len() == 0 {
        Map::empty()
    } else {
        let m = by_name(cs.drop_last());
        let c = cs.last();
        if cond_name(c).len() == 0 {
            m
        } else {
            m.insert(cond_name(c), c)
        }
    }
}

/// The text of each operator, in the order they are tried (longest first).
pub open spec fn op_text(j: int) -> Seq<char> {
    if j == 0 {
        seq!['<', '=']
    } else if j == 1 {
        seq!['>', '=']
    } else if j == 2 {
        seq!['=', '=']
    } else if j == 3 {
        seq!['!', '=']
    } else if j == 4 {
        seq!['<']
    } else {
        seq!['>']
    }
}

pub open spec fn op_at(j: int) -> ThresholdOp {
    if j == 0 {
        ThresholdOp::Le
    } else if j == 1 {
        ThresholdOp::Ge
    } else if j == 2 {
        ThresholdOp::Eq
    } else if j == 3 {
        ThresholdOp::Ne
    } else if j == 4 {
        ThresholdOp::Lt
    } else {
        ThresholdOp::Gt
    }
}

pub open spec fn family(op: ThresholdOp) -> OpFamily {
    match op {
        ThresholdOp::Lt | ThresholdOp::Le => OpFamily::Below,
        ThresholdOp::Gt | ThresholdOp::Ge => OpFamily::Above,
        ThresholdOp::Eq => OpFamily::Equal,
        ThresholdOp::Ne => OpFamily::NotEqual,
    }
}

/// First index at or after `i` where `pat` occurs in `s`.
pub open spec fn find_from(s: Seq<char>, pat: Seq<char>, i: int) -> Option<int>
    decreases s.len() + 1 - i,
{
    if i < 0 || i > s.len() || i + pat.len() > s.len() {
        None
    } else if occurs_at(s, pat, i) {
        Some(i)
    } else {
        find_from(s, pat, i + 1)
    }
}

pub open spec fn has_ws(s: Seq<char>) -> bool {
    exists|i: int| 0 <= i < s.len() && is_ws(s[i])
}

/// Tries the operators from index `j` on: the first operator that occurs
/// after a non-empty prefix and splits the text into a single-word field and
/// a non-empty right-hand side decides; a right-hand side that is not a
/// numeral makes the whole expression unparsable.
pub open spec fn parse_from(t: Seq<char>, j: int) -> Option<SimpleExprView>
    decreases 6 - j,
{
    if j < 0 || j >= 6 {
        None
    } else {
        let pat = op_text(j);
        match find_from(t, pat, 0) {
            None => parse_from(t, j + 1),
            Some(idx) => {
                if idx == 0 {
                    parse_from(t, j + 1)
                } else {
                    let lhs = trim(t.take(idx));
                    let rhs = trim(t.skip(idx + pat.len()));
                    if lhs.len() == 0 || rhs.len() == 0 || has_ws(lhs) {
                        parse_from(t, j + 1)
                    } else {
                        match parse_numeral(rhs) {
                            None => None,
                            Some(n) => Some(SimpleExprView { field: lhs, op: op_at(j), value: n }),
                        }
                    }
                }
            },
        }
    }
}

/// `field op number` with whitespace tolerance.
pub open spec fn parse_expr(s: Seq<char>) -> Option<SimpleExprView> {
    parse_from(trim(s), 0)
}

/// The new expression invalidates less readily than the old one: same field,
/// same direction, and a threshold that is harder to cross (lower for `<`,
/// higher for `>`). Equality operators are never looser.
pub open spec fn looser(new_expr: Seq<char>, old_expr: Seq<char>) -> bool {
    match (parse_expr(new_expr), parse_expr(old_expr)) {
        (Some(n), Some(o)) => {
            &&& n.field == o.field
            &&& family(n.op) == family(o.op)
            &&& match family(n.op) {
                OpFamily::Below => num_lt(n.value, o.value),
                OpFamily::Above => num_lt(o.value, n.value),
                _ => false,
            }
        },
        _ => false,
    }
}

pub open spec fn loosened_pair(o: Condition, u: Condition) -> bool {
    match (o, u) {
        (Condition::Quantitative { expr: oe, .. }, Condition::Quantitative { expr: ue, .. }) => looser(
            ue@,
            oe@,
        ),
        _ => false,
    }
}

pub open spec fn review_pair(o: Condition, u: Condition) -> bool {
    match (o, u) {
        (Condition::Quantitative { .. }, Condition::Quantitative { .. }) => false,
        (
            Condition::Narrative { assertion: oa, .. },
            Condition::Narrative { assertion: ua, .. },
        ) => oa@ != ua@,
        _ => true,
    }
}

/// The reason recorded for a name present in both versions, if any.
pub open spec fn pair_reason(n: Seq<char>, o: Condition, u: Condition) -> Option<Seq<char>> {
    match (o, u) {
        (Condition::Quantitative { expr: oe, .. }, Condition::Quantitative { expr: ue, .. }) => {
            if looser(ue@, oe@) {
                Some("loosened "@ + n + ": "@ + oe@ + " \u{2192} "@ + ue@)
            } else {
                None
            }
        },
        (
            Condition::Narrative { assertion: oa, .. },
            Condition::Narrative { assertion: ua, .. },
        ) => {
            if oa@ != ua@ {
                Some("narrative changed for "@ + n + " \u{2014} human review"@)
            } else {
                None
            }
        },
        _ => Some("type changed for "@ + n + " \u{2014} human review"@),
    }
}

/// Reasons for the names in `names` (in that order) that both versions hold.
pub open spec fn change_reasons(
    names: Seq<Seq<char>>,
    orig: Map<Seq<char>, Condition>,
    upd: Map<Seq<char>, Condition>,
) -> Seq<Seq<char>>
    decreases names.len(),
{
    if names.len() == 0 {
        Seq::empty()
    } else {
        let prev = change_reasons(names.drop_last(), orig, upd);
        let n = names.last();
        if upd.contains_key(n) {
            match pair_reason(n, orig[n], upd[n]) {
                Some(r) => prev.push(r),
                None => prev,
            }
        } else {
            prev
        }
    }
}

pub open spec fn dropped_reason(n: Seq<char>) -> Seq<char> {
    "dropped invalidation condition: "@ + n
}

pub open spec fn dropped_set(original: Seq<Condition>, updated: Seq<Condition>) -> Set<Seq<char>> {
    by_name(original).dom().difference(by_name(updated).dom())
}

pub open spec fn added_set(original: Seq<Condition>, updated: Seq<Condition>) -> Set<Seq<char>> {
    by_name(updated).dom().difference(by_name(original).dom())
}

pub open spec fn loosened_set(original: Seq<Condition>, updated: Seq<Condition>) -> Set<
    Seq<char>,
> {
    let o = by_name(original);
    let u = by_name(updated);
    Set::new(|n: Seq<char>| o.contains_key(n) && u.contains_key(n) && loosened_pair(o[n], u[n]))
}

pub open spec fn some_review(original: Seq<Condition>, updated: Seq<Condition>) -> bool {
    let o = by_name(original);
    let u = by_name(updated);
    exists|n: Seq<char>| o.contains_key(n) && u.contains_key(n) && review_pair(o[n], u[n])
}

// ------------------------------------------------------------------ exec: expressions

/// Index of the first occurrence of `pat` in `s`.
fn find_first(s: &Vec<char>, pat: &Vec<char>) -> (r: Option<usize>)
    ensures
        r matches Some(k) ==> find_from(s@, pat@, 0) == Some(k as int) && k + pat@.len()
            <= s@.len(),
        r is None ==> find_from(s@, pat@, 0) is None,
{
    if pat.len() > s.len() {
        return None;
    }
    let last = s.len() - pat.len();
    let mut i: usize = 0;
    while i < last
        invariant
            pat@.len() <= s@.len(),
            last == s@.len() - pat@.len(),
            i <= last,
            find_from(s@, pat@, 0) == find_from(s@, pat@, i as int),
        decreases last - i,
    {
        if occurs_at_exec(s, pat, i) {
            return Some(i);
        }
        i += 1;
    }
    if occurs_at_exec(s, pat, last) {
        return Some(last);
    }
    assert(find_from(s@, pat@, last + 1) is None);
    None
}

fn has_ws_exec(s: &Vec<char>) -> (r: bool)
    ensures
        r == has_ws(s@),
{
    let mut i: usize = 0;
    while i < s.len()
        invariant
            i <= s@.len(),
            forall|k: int| 0 <= k < i ==> !is_ws(s@[k]),
        decreases s.len() - i,
    {
        if is_ws_char(s[i]) {
            return true;
        }
        i += 1;
    }
    false
}

fn op_text_exec(j: usize) -> (r: (Vec<char>, ThresholdOp))
    requires
        j < 6,
    ensures
        r.0@ == op_text(j as int),
        r.1 == op_at(j as int),
{
    let mut v: Vec<char> = Vec::new();
    if j == 0 {
        v.push('<');
        v.push('=');
        (v, ThresholdOp::Le)
    } else if j == 1 {
        v.push('>');
        v.push('=');
        (v, ThresholdOp::Ge)
    } else if j == 2 {
        v.push('=');
        v.push('=');
        (v, ThresholdOp::Eq)
    } else if j == 3 {
        v.push('!');
        v.push('=');
        (v, ThresholdOp::Ne)
    } else if j == 4 {
        v.push('<');
        (v, ThresholdOp::Lt)
    } else {
        v.push('>');
        (v, ThresholdOp::Gt)
    }
}

fn sub_vec(s: &Vec<char>, from: usize, to: usize) -> (r: Vec<char>)
    requires
        from <= to <= s@.len(),
    ensures
        r@ == s@.subrange(from as int, to as int),
{
    let mut r: Vec<char> = Vec::new();
    let mut i = from;
    while i < to
        invariant
            from <= i <= to <= s@.len(),
            r@ == s@.subrange(from as int, i as int),
        decreases to - i,
    {
        r.push(s[i]);
        assert(s@.subrange(from as int, i + 1) =~= s@.subrange(from as int, i as int).push(
            s@[i as int],
        ));
        i += 1;
    }
    r
}

/// Parses `field op number`, tolerating whitespace around each part.
pub fn parse_simple_expr(s: &str) -> (r: Option<SimpleExpr>)
    ensures
        r matches Some(e) ==> parse_expr(s@) == Some(e@) && wf(e.value@),
        r is None ==> parse_expr(s@) is None,
{
    let raw = chars_of(s);
    let t = trim_chars(&raw);
    let mut j: usize = 0;
    while j < 6
        invariant
            j <= 6,
            t@ == trim(s@),
            parse_from(t@, 0) == parse_from(t@, j as int),
        decreases 6 - j,
    {
        let (pat, op) = op_text_exec(j);
        match find_first(&t, &pat) {
            None => {},
            Some(idx) => {
                if idx != 0 {
                    assert(idx + pat@.len() <= t@.len());
                    let lhs_raw = sub_vec(&t, 0, idx);
                    let rhs_raw = sub_vec(&t, idx + pat.len(), t.len());
                    assert(lhs_raw@ =~= t@.take(idx as int));
                    assert(rhs_raw@ =~= t@.skip(idx + pat@.len()));
                    let lhs = trim_chars(&lhs_raw);
                    let rhs = trim_chars(&rhs_raw);
                    if !(lhs.len() == 0 || rhs.len() == 0 || has_ws_exec(&lhs)) {
                        match crate::decimal::parse(&rhs) {
                            None => {
                                return None;
                            },
                            Some(n) => {
                                return Some(SimpleExpr { field: string_from_chars(&lhs), op, value: n });
                            },
                        }
                    }
                }
            },
        }
        j += 1;
    }
    None
}

/// Direction of an operator.
pub fn op_family(op: ThresholdOp) -> (r: OpFamily)
    ensures
        r == family(op),
{
    match op {
        ThresholdOp::Lt | ThresholdOp::Le => OpFamily::Below,
        ThresholdOp::Gt | ThresholdOp::Ge => OpFamily::Above,
        ThresholdOp::Eq => OpFamily::Equal,
        ThresholdOp::Ne => OpFamily::NotEqual,
    }
}

/// Whether `new_expr` invalidates less readily than `old_expr`.
pub fn expr_is_looser_than(new_expr: &str, old_expr: &str) -> (r: bool)
    ensures
        r == looser(new_expr@, old_expr@),
{
    let n = match parse_simple_expr(new_expr) {
        Some(t) => t,
        None => return false,
    };
    let o = match parse_simple_expr(old_expr) {
        Some(t) => t,
        None => return false,
    };
    if !(n.field == o.field) {
        return false;
    }
    if op_family(n.op) != op_family(o.op) {
        return false;
    }
    match op_family(n.op) {
        OpFamily::Below => num_less(&n.value, &o.value),
        OpFamily::Above => num_less(&o.value, &n.value),
        _ => false,
    }
}

// ------------------------------------------------------------------ exec: indexing

impl Condition {
    /// The condition's name.
    pub fn name(&self) -> (r: &String)
        ensures
            r@ == cond_name(*self),
    {
        match self {
            Condition::Quantitative { name, .. } => name,
            Condition::Narrative { name, .. } => name,
        }
    }
}

pub open spec fn key_views(keys: Seq<Vec<char>>) -> Seq<Seq<char>> {
    keys.map_values(|v: Vec<char>| v@)
}

/// `idx`/`keys` list the conditions of `m` sorted by name: `keys[k]` is the
/// name of `cs[idx[k]]`, which is `m`'s entry for that name.
pub open spec fn represents(
    cs: Seq<Condition>,
    idx: Seq<usize>,
    keys: Seq<Seq<char>>,
    m: Map<Seq<char>, Condition>,
) -> bool {
    &&& idx.len() == keys.len()
    &&& forall|k: int| 0 <= k < idx.len() ==> (#[trigger] idx[k] as int) < cs.len()
    &&& forall|k: int| 0 <= k < idx.len() ==> #[trigger] keys[k] == cond_name(cs[idx[k] as int])
    &&& forall|k: int|
        0 <= k < idx.len() ==> m.contains_key(#[trigger] keys[k]) && m[keys[k]] == cs[idx[k] as int]
    &&& forall|n: Seq<char>| #[trigger] m.contains_key(n) ==> exists|k: int| 0 <= k < keys.len() && keys[k] == n
    &&& sorted_strict(keys)
}

proof fn lemma_by_name_step(cs: Seq<Condition>, i: int)
    requires
        0 <= i < cs.len(),
    ensures
        by_name(cs.take(i + 1)) == (if cond_name(cs[i as int]).len() == 0 {
            by_name(cs.take(i))
        } else {
            by_name(cs.take(i)).insert(cond_name(cs[i as int]), cs[i as int])
        }),
{
    assert(cs.take(i + 1).drop_last() =~= cs.take(i));
    assert(cs.take(i + 1).last() == cs[i as int]);
}

proof fn lemma_keys_to_set(keys: Seq<Seq<char>>, m: Map<Seq<char>, Condition>, cs: Seq<Condition>, idx: Seq<usize>)
    requires
        represents(cs, idx, keys, m),
    ensures
        keys.to_set() == m.dom(),
        sorted_enum(m.dom()) == keys,
{
    assert forall|n: Seq<char>| keys.to_set().contains(n) <==> m.dom().contains(n) by {
        if keys.to_set().contains(n) {
            let k = choose|k: int| 0 <= k < keys.len() && keys[k] == n;
            assert(keys[k] == cond_name(cs[idx[k] as int]));
        }
        if m.dom().contains(n) {
            assert(m.contains_key(n));
        }
    }
    assert(keys.to_set() =~= m.dom());
    lemma_sorted_enum(keys);
}

proof fn lemma_represents_replace(
    cs: Seq<Condition>,
    idx: Seq<usize>,
    idx2: Seq<usize>,
    ks: Seq<Seq<char>>,
    m: Map<Seq<char>, Condition>,
    p: int,
    i: usize,
)
    requires
        represents(cs, idx, ks, m),
        0 <= p < idx.len(),
        (i as int) < cs.len(),
        ks[p] == cond_name(cs[i as int]),
        idx2 == idx.update(p, i),
    ensures
        represents(cs, idx2, ks, m.insert(cond_name(cs[i as int]), cs[i as int])),
{
    let nv = cond_name(cs[i as int]);
    let m2 = m.insert(nv, cs[i as int]);
    assert forall|k: int|
        0 <= k < idx2.len() implies {
            &&& (idx2[k] as int) < cs.len()
            &&& #[trigger] ks[k] == cond_name(cs[idx2[k] as int])
            &&& m2.contains_key(ks[k])
            &&& m2[ks[k]] == cs[idx2[k] as int]
        } by {
        if k != p {
            assert(ks[k] == cond_name(cs[idx[k] as int]));
            if ks[k] == nv {
                lemma_lex_irrefl(nv);
                if k < p {
                    assert(lex_lt(ks[k], ks[p]));
                } else {
                    assert(lex_lt(ks[p], ks[k]));
                }
            }
        }
    }
    assert forall|x: Seq<char>| #[trigger] m2.contains_key(x) implies exists|k: int| 0 <= k < ks.len() && ks[k] == x by {
        if x == nv {
            assert(ks[p] == x);
        } else {
            assert(m.contains_key(x));
        }
    }
}

proof fn lemma_represents_insert(
    cs: Seq<Condition>,
    idx: Seq<usize>,
    idx2: Seq<usize>,
    ks: Seq<Seq<char>>,
    ks2: Seq<Seq<char>>,
    m: Map<Seq<char>, Condition>,
    p: int,
    i: usize,
)
    requires
        represents(cs, idx, ks, m),
        0 <= p <= idx.len(),
        (i as int) < cs.len(),
        forall|q: int| 0 <= q < p ==> lex_lt(#[trigger] ks[q], cond_name(cs[i as int])),
        p == ks.len() || lex_lt(cond_name(cs[i as int]), ks[p]),
        idx2 == idx.insert(p, i),
        ks2 == ks.insert(p, cond_name(cs[i as int])),
    ensures
        represents(cs, idx2, ks2, m.insert(cond_name(cs[i as int]), cs[i as int])),
{
    let nv = cond_name(cs[i as int]);
    let m2 = m.insert(nv, cs[i as int]);
    assert forall|q2: int| p <= q2 < ks.len() implies lex_lt(nv, #[trigger] ks[q2]) by {
        if q2 > p {
            assert(lex_lt(ks[p], ks[q2]));
            lemma_lex_trans(nv, ks[p], ks[q2]);
        }
    }
    assert(!m.contains_key(nv)) by {
        if m.contains_key(nv) {
            let k = choose|k: int| 0 <= k < ks.len() && ks[k] == nv;
            lemma_lex_irrefl(nv);
            if k < p {
                assert(lex_lt(ks[k], nv));
            } else {
                assert(lex_lt(nv, ks[k]));
            }
        }
    }
    assert forall|a: int, b: int| 0 <= a < b < ks2.len() implies lex_lt(
        #[trigger] ks2[a],
        #[trigger] ks2[b],
    ) by {
        if b < p {
            assert(ks2[a] == ks[a] && ks2[b] == ks[b]);
        } else if b == p {
            assert(ks2[a] == ks[a]);
        } else if a == p {
            assert(ks2[b] == ks[b - 1]);
        } else if a < p {
            assert(ks2[a] == ks[a] && ks2[b] == ks[b - 1]);
            lemma_lex_trans(ks[a], nv, ks[b - 1]);
        } else {
            assert(ks2[a] == ks[a - 1] && ks2[b] == ks[b - 1]);
        }
    }
    assert forall|k: int| 0 <= k < idx2.len() implies {
        &&& (idx2[k] as int) < cs.len()
        &&& #[trigger] ks2[k] == cond_name(cs[idx2[k] as int])
        &&& m2.contains_key(ks2[k])
        &&& m2[ks2[k]] == cs[idx2[k] as int]
    } by {
        if k < p {
            assert(idx2[k] == idx[k]);
            assert(ks2[k] == ks[k]);
            assert(ks[k] == cond_name(cs[idx[k] as int]));
            lemma_lex_irrefl(nv);
        } else if k > p {
            assert(idx2[k] == idx[k - 1]);
            assert(ks2[k] == ks[k - 1]);
            assert(ks[k - 1] == cond_name(cs[idx[k - 1] as int]));
            lemma_lex_irrefl(nv);
        }
    }
    assert forall|x: Seq<char>| #[trigger] m2.contains_key(x) implies exists|k: int| 0 <= k < ks2.len() && ks2[k] == x by {
        if x == nv {
            assert(ks2[p] == x);
        } else {
            assert(m.contains_key(x));
            let k = choose|k: int| 0 <= k < ks.len() && ks[k] == x;
            if k < p {
                assert(ks2[k] == x);
            } else {
                assert(ks2[k + 1] == x);
            }
        }
    }
}

/// Where `n` sits among the sorted keys: its index if present, else the
/// index of the first key after it.
fn locate(keys: &Vec<Vec<char>>, n: &Vec<char>) -> (r: (usize, bool))
    requires
        sorted_strict(key_views(keys@)),
    ensures
        r.0 <= keys@.len(),
        forall|q: int| 0 <= q < r.0 ==> lex_lt(#[trigger] key_views(keys@)[q], n@),
        r.1 ==> r.0 < keys@.len() && key_views(keys@)[r.0 as int] == n@,
        !r.1 ==> r.0 == keys@.len() || lex_lt(n@, key_views(keys@)[r.0 as int]),
{
    let ghost ks = key_views(keys@);
    let mut p: usize = 0;
    while p < keys.len()
        invariant
            p <= keys@.len(),
            ks == key_views(keys@),
            forall|q: int| 0 <= q < p ==> lex_lt(#[trigger] ks[q], n@),
        decreases keys.len() - p,
    {
        if crate::text::chars_eq(&keys[p], n) {
            return (p, true);
        }
        if lex_lt_chars(n, &keys[p]) {
            return (p, false);
        }
        proof {
            lemma_lex_total(n@, ks[p as int]);
        }
        p += 1;
    }
    (p, false)
}

/// Sorts the named conditions by name, keeping the last condition of each name.
fn index_by_name(cs: &Vec<Condition>, nm: &Vec<Vec<char>>) -> (r: (Vec<usize>, Vec<Vec<char>>))
    requires
        nm@.len() == cs@.len(),
        forall|i: int| 0 <= i < cs@.len() ==> (#[trigger] nm@[i])@ == cond_name(cs@[i]),
    ensures
        represents(cs@, r.0@, key_views(r.1@), by_name(cs@)),
{
    let mut idx: Vec<usize> = Vec::new();
    let mut keys: Vec<Vec<char>> = Vec::new();
    let mut i: usize = 0;
    assert(cs@.take(0) =~= Seq::<Condition>::empty());
    assert(key_views(keys@) =~= Seq::<Seq<char>>::empty());
    while i < cs.len()
        invariant
            i <= cs@.len(),
            nm@.len() == cs@.len(),
            forall|q: int| 0 <= q < cs@.len() ==> (#[trigger] nm@[q])@ == cond_name(cs@[q]),
            represents(cs@, idx@, key_views(keys@), by_name(cs@.take(i as int))),
        decreases cs.len() - i,
    {
        let ghost m = by_name(cs@.take(i as int));
        let ghost ks = key_views(keys@);
        proof {
            lemma_by_name_step(cs@, i as int);
        }
        let n = &nm[i];
        if n.len() != 0 {
            let ghost nv = n@;
            let (p, found) = locate(&keys, n);
            if found {
                let ghost old_idx = idx@;
                idx.set(p, i);
                proof {
                    lemma_represents_replace(cs@, old_idx, idx@, ks, m, p as int, i);
                }
            } else {
                let ghost old_idx = idx@;
                let mut key = Vec::new();
                let mut q: usize = 0;
                while q < n.len()
                    invariant
                        q <= n@.len(),
                        key@ == n@.take(q as int),
                    decreases n.len() - q,
                {
                    key.push(n[q]);
                    assert(n@.take(q + 1) =~= n@.take(q as int).push(n@[q as int]));
                    q += 1;
                }
                assert(n@.take(n@.len() as int) =~= n@);
                idx.insert(p, i);
                keys.insert(p, key);
                proof {
                    assert(key_views(keys@) =~= ks.insert(p as int, nv));
                    lemma_represents_insert(cs@, old_idx, idx@, ks, key_views(keys@), m, p as int, i);
                }
            }
        }
        i += 1;
    }
    assert(cs@.take(cs@.len() as int) =~= cs@);
    (idx, keys)
}

// ------------------------------------------------------------------ exec: analysis

/// The elements of `names` that satisfy `pred`, in order.
pub open spec fn keep(names: Seq<Seq<char>>, pred: spec_fn(Seq<char>) -> bool) -> Seq<Seq<char>>
    decreases names.len(),
{
    if names.len() == 0 {
        Seq::empty()
    } else {
        let r = keep(names.drop_last(), pred);
        if pred(names.last()) {
            r.push(names.last())
        } else {
            r
        }
    }
}

proof fn lemma_keep(names: Seq<Seq<char>>, pred: spec_fn(Seq<char>) -> bool)
    requires
        sorted_strict(names),
    ensures
        sorted_strict(keep(names, pred)),
        keep(names, pred).to_set() == names.to_set().filter(pred),
        forall|x: Seq<char>| #[trigger] keep(names, pred).contains(x) ==> names.contains(x),
    decreases names.len(),
{
    if names.len() > 0 {
        let n1 = names.drop_last();
        assert(sorted_strict(n1)) by {
            assert forall|a: int, b: int| 0 <= a < b < n1.len() implies lex_lt(
                #[trigger] n1[a],
                #[trigger] n1[b],
            ) by {
                assert(n1[a] == names[a] && n1[b] == names[b]);
            }
        }
        lemma_keep(n1, pred);
        let r = keep(n1, pred);
        let l = names.last();
        assert forall|x: Seq<char>| #[trigger] r.contains(x) implies lex_lt(x, l) by {
            assert(n1.contains(x));
            let k = choose|k: int| 0 <= k < n1.len() && n1[k] == x;
            assert(names[k] == x);
            assert(lex_lt(names[k], names[names.len() - 1]));
        }
        if pred(l) {
            let r2 = r.push(l);
            assert forall|a: int, b: int| 0 <= a < b < r2.len() implies lex_lt(
                #[trigger] r2[a],
                #[trigger] r2[b],
            ) by {
                if b == r.len() {
                    assert(r.contains(r2[a]));
                } else {
                    assert(r2[a] == r[a] && r2[b] == r[b]);
                }
            }
            assert forall|x: Seq<char>| #[trigger] r2.contains(x) implies names.contains(x) by {
                if x != l {
                    let k = choose|k: int| 0 <= k < r2.len() && r2[k] == x;
                    assert(r.contains(x)) by {
                        assert(r[k] == x);
                    }
                    let j = choose|j: int| 0 <= j < n1.len() && n1[j] == x;
                    assert(names[j] == x);
                } else {
                    assert(names[names.len() - 1] == x);
                }
            }
        } else {
            assert forall|x: Seq<char>| #[trigger] r.contains(x) implies names.contains(x) by {
                let j = choose|j: int| 0 <= j < n1.len() && n1[j] == x;
                assert(names[j] == x);
            }
        }
        assert(names =~= n1.push(l));
        assert(keep(names, pred).to_set() =~= names.to_set().filter(pred)) by {
            assert forall|x: Seq<char>| #[trigger] names.to_set().filter(pred).contains(x)
                <==> keep(names, pred).to_set().contains(x) by {
                if names.to_set().contains(x) && pred(x) {
                    let j = choose|j: int| 0 <= j < names.len() && names[j] == x;
                    if j < n1.len() {
                        assert(n1[j] == x);
                        assert(n1.to_set().filter(pred).contains(x));
                        assert(r.to_set().contains(x));
                        if pred(l) {
                            assert(r.push(l).contains(x)) by {
                                let k = choose|k: int| 0 <= k < r.len() && r[k] == x;
                                assert(r.push(l)[k] == x);
                            }
                        }
                    } else {
                        assert(keep(names, pred)[keep(names, pred).len() - 1] == x);
                    }
                }
                if keep(names, pred).to_set().contains(x) {
                    assert(keep(names, pred).contains(x));
                    if x != l || !pred(l) {
                        if pred(l) {
                            let k = choose|k: int| 0 <= k < r.push(l).len() && r.push(l)[k] == x;
                            assert(r[k] == x);
                        }
                        assert(r.contains(x));
                        assert(r.to_set().contains(x));
                        assert(n1.to_set().filter(pred).contains(x));
                        let j = choose|j: int| 0 <= j < n1.len() && n1[j] == x;
                        assert(names[j] == x);
                    } else {
                        assert(names[names.len() - 1] == x);
                    }
                }
            }
        }
    } else {
        assert(names.to_set().filter(pred) =~= Set::empty());
        assert(keep(names, pred).to_set() =~= Set::empty());
    }
}

fn names_of(cs: &Vec<Condition>) -> (nm: Vec<Vec<char>>)
    ensures
        nm@.len() == cs@.len(),
        forall|i: int| 0 <= i < cs@.len() ==> (#[trigger] nm@[i])@ == cond_name(cs@[i]),
{
    let mut nm: Vec<Vec<char>> = Vec::new();
    let mut i: usize = 0;
    while i < cs.len()
        invariant
            i <= cs@.len(),
            nm@.len() == i,
            forall|k: int| 0 <= k < i ==> (#[trigger] nm@[k])@ == cond_name(cs@[k]),
        decreases cs.len() - i,
    {
        nm.push(chars_of(cs[i].name().as_str()));
        i += 1;
    }
    nm
}

/// Position of `n` among the keys, if present.
fn lookup(
    cs: &Vec<Condition>,
    idx: &Vec<usize>,
    keys: &Vec<Vec<char>>,
    n: &Vec<char>,
    Ghost(m): Ghost<Map<Seq<char>, Condition>>,
) -> (r: Option<usize>)
    requires
        represents(cs@, idx@, key_views(keys@), m),
    ensures
        r matches Some(k) ==> k < keys@.len() && key_views(keys@)[k as int] == n@
            && m.contains_key(n@),
        r is None ==> !m.contains_key(n@),
{
    let ghost ks = key_views(keys@);
    let mut p: usize = 0;
    while p < keys.len()
        invariant
            p <= keys@.len(),
            ks == key_views(keys@),
            represents(cs@, idx@, key_views(keys@), m),
            forall|q: int| 0 <= q < p ==> #[trigger] ks[q] != n@,
        decreases keys.len() - p,
    {
        if crate::text::chars_eq(&keys[p], n) {
            assert(m.contains_key(ks[p as int]));
            return Some(p);
        }
        p += 1;
    }
    None
}

/// Compares two condition sets and produces an integrity verdict.
pub fn analyze(original: &Vec<Condition>, updated: &Vec<Condition>) -> (r: Report)
    ensures
        views(r.dropped@) == sorted_enum(dropped_set(original@, updated@)),
        views(r.added@) == sorted_enum(added_set(original@, updated@)),
        views(r.loosened@) == sorted_enum(loosened_set(original@, updated@)),
        r.weakened == (!dropped_set(original@, updated@).is_empty() || !loosened_set(
            original@,
            updated@,
        ).is_empty()),
        r.needs_review == (some_review(original@, updated@) || (original@.len() > 0
            && r.dropped@.len() == original@.len() && r.added@.len() > 0)),
        views(r.reasons@) == change_reasons(
            sorted_enum(by_name(original@).dom()),
            by_name(original@),
            by_name(updated@),
        ) + views(r.dropped@).map_values(|n: Seq<char>| dropped_reason(n)),
{
    let on = names_of(original);
    let un = names_of(updated);
    let (oi, ok) = index_by_name(original, &on);
    let (ui, uk) = index_by_name(updated, &un);
    let ghost om = by_name(original@);
    let ghost um = by_name(updated@);
    let ghost o = key_views(ok@);
    let ghost u = key_views(uk@);
    let ghost absent_u = |n: Seq<char>| !um.contains_key(n);
    let ghost absent_o = |n: Seq<char>| !om.contains_key(n);
    let ghost loose = |n: Seq<char>| um.contains_key(n) && loosened_pair(om[n], um[n]);
    let mut dropped: Vec<String> = Vec::new();
    let mut loosened: Vec<String> = Vec::new();
    let mut reasons: Vec<String> = Vec::new();
    let mut needs_review = false;
    let mut k: usize = 0;
    while k < oi.len()
        invariant
            k <= oi@.len(),
            represents(original@, oi@, o, om),
            represents(updated@, ui@, u, um),
            o == key_views(ok@),
            u == key_views(uk@),
            views(dropped@) == keep(o.take(k as int), absent_u),
            views(loosened@) == keep(o.take(k as int), loose),
            views(reasons@) == change_reasons(o.take(k as int), om, um),
            needs_review == exists|j: int|
                0 <= j < k && um.contains_key(o[j]) && review_pair(om[o[j]], um[o[j]]),
            absent_u == (|n: Seq<char>| !um.contains_key(n)),
            loose == (|n: Seq<char>| um.contains_key(n) && loosened_pair(om[n], um[n])),
        decreases oi.len() - k,
    {
        let oc = &original[oi[k]];
        let name = oc.name();
        let ghost nv = o[k as int];
        assert(nv == cond_name(original@[oi@[k as int] as int]));
        assert(om[nv] == *oc);
        assert(o.take(k + 1).drop_last() =~= o.take(k as int));
        assert(o.take(k + 1).last() == nv);
        match lookup(updated, &ui, &uk, &ok[k], Ghost(um)) {
            None => {
                dropped.push(copy_string(name));
                assert(views(dropped@) =~= views(dropped@.drop_last()).push(nv));
            },
            Some(j) => {
                let uc = &updated[ui[j]];
                assert(um[nv] == *uc);
                match (oc, uc) {
                    (
                        Condition::Quantitative { expr: oe, .. },
                        Condition::Quantitative { expr: ue, .. },
                    ) => {
                        if expr_is_looser_than(ue.as_str(), oe.as_str()) {
                            loosened.push(copy_string(name));
                            assert(views(loosened@) =~= views(loosened@.drop_last()).push(nv));
                            let mut t = String::new();
                            append(&mut t, "loosened ");
                            append_string(&mut t, name);
                            append(&mut t, ": ");
                            append_string(&mut t, oe);
                            append(&mut t, " \u{2192} ");
                            append_string(&mut t, ue);
                            reasons.push(t);
                            assert(views(reasons@) =~= views(reasons@.drop_last()).push(t@));
                        }
                    },
                    (
                        Condition::Narrative { assertion: oa, .. },
                        Condition::Narrative { assertion: ua, .. },
                    ) => {
                        if !(*oa == *ua) {
                            needs_review = true;
                            let mut t = String::new();
                            append(&mut t, "narrative changed for ");
                            append_string(&mut t, name);
                            append(&mut t, " \u{2014} human review");
                            reasons.push(t);
                            assert(views(reasons@) =~= views(reasons@.drop_last()).push(t@));
                        }
                    },
                    _ => {
                        needs_review = true;
                        let mut t = String::new();
                        append(&mut t, "type changed for ");
                        append_string(&mut t, name);
                        append(&mut t, " \u{2014} human review");
                        reasons.push(t);
                        assert(views(reasons@) =~= views(reasons@.drop_last()).push(t@));
                    },
                }
            },
        }
        k += 1;
    }
    assert(o.take(oi@.len() as int) =~= o);
    let mut added: Vec<String> = Vec::new();
    let mut k2: usize = 0;
    while k2 < ui.len()
        invariant
            k2 <= ui@.len(),
            represents(original@, oi@, o, om),
            represents(updated@, ui@, u, um),
            o == key_views(ok@),
            u == key_views(uk@),
            views(added@) == keep(u.take(k2 as int), absent_o),
            absent_o == (|n: Seq<char>| !om.contains_key(n)),
        decreases ui.len() - k2,
    {
        let ghost nv = u[k2 as int];
        assert(u.take(k2 + 1).drop_last() =~= u.take(k2 as int));
        assert(u.take(k2 + 1).last() == nv);
        match lookup(original, &oi, &ok, &uk[k2], Ghost(om)) {
            None => {
                let uc = &updated[ui[k2]];
                added.push(copy_string(uc.name()));
                assert(views(added@) =~= views(added@.drop_last()).push(nv));
            },
            Some(_) => {},
        }
        k2 += 1;
    }
    assert(u.take(ui@.len() as int) =~= u);
    let base_len = reasons.len();
    assert(views(reasons@).take(base_len as int) =~= views(reasons@));
    let mut d: usize = 0;
    while d < dropped.len()
        invariant
            d <= dropped@.len(),
            base_len <= reasons@.len(),
            views(reasons@).take(base_len as int) == change_reasons(o, om, um),
            views(reasons@) == views(reasons@).take(base_len as int) + views(dropped@).take(
                d as int,
            ).map_values(|n: Seq<char>| dropped_reason(n)),
        decreases dropped.len() - d,
    {
        let mut t = String::new();
        append(&mut t, "dropped invalidation condition: ");
        append_string(&mut t, &dropped[d]);
        let ghost before = views(reasons@);
        reasons.push(t);
        assert(views(reasons@).take(base_len as int) =~= before.take(base_len as int));
        assert(views(dropped@).take(d + 1).map_values(|n: Seq<char>| dropped_reason(n))
            =~= views(dropped@).take(d as int).map_values(|n: Seq<char>| dropped_reason(n)).push(
            dropped_reason(views(dropped@)[d as int]),
        ));
        assert(views(reasons@) =~= before.push(t@));
        d += 1;
    }
    let weakened = dropped.len() > 0 || loosened.len() > 0;
    if original.len() > 0 && dropped.len() == original.len() && added.len() > 0 {
        needs_review = true;
    }
    proof {
        lemma_keys_to_set(o, om, original@, oi@);
        lemma_keys_to_set(u, um, updated@, ui@);
        lemma_keep(o, absent_u);
        lemma_keep(o, loose);
        lemma_keep(u, absent_o);
        assert(o.to_set().filter(absent_u) =~= dropped_set(original@, updated@));
        assert(u.to_set().filter(absent_o) =~= added_set(original@, updated@));
        assert(o.to_set().filter(loose) =~= loosened_set(original@, updated@));
        lemma_sorted_enum(views(dropped@));
        lemma_sorted_enum(views(added@));
        lemma_sorted_enum(views(loosened@));
        assert(views(dropped@).take(dropped@.len() as int) =~= views(dropped@));
        assert(views(dropped@).take(d as int) =~= views(dropped@));
        if dropped@.len() > 0 {
            assert(views(dropped@).to_set().contains(views(dropped@)[0]));
        }
        if loosened@.len() > 0 {
            assert(views(loosened@).to_set().contains(views(loosened@)[0]));
        }
        if !dropped_set(original@, updated@).is_empty() {
            assert(views(dropped@).len() > 0);
        }
        if !loosened_set(original@, updated@).is_empty() {
            assert(views(loosened@).len() > 0);
        }
        if some_review(original@, updated@) {
            let n = choose|n: Seq<char>|
                om.contains_key(n) && um.contains_key(n) && review_pair(om[n], um[n]);
            assert(o.to_set().contains(n));
            let j = choose|j: int| 0 <= j < o.len() && o[j] == n;
        }
    }
    Report { weakened, needs_review, dropped, loosened, added, reasons }
}

// ------------------------------------------------------------------ laws

/// No threshold expression is looser than itself.
pub proof fn law_looser_irreflexive(e: Seq<char>)
    ensures
        !looser(e, e),
{
}

/// Loosening goes one way: when `a` is looser than `b`, `b` is not looser than `a`.
pub proof fn law_looser_asymmetric(a: Seq<char>, b: Seq<char>)
    requires
        looser(a, b),
    ensures
        !looser(b, a),
{
}

proof fn lemma_same_condition_unchanged(c: Condition)
    ensures
        !loosened_pair(c, c),
        !review_pair(c, c),
{
}

/// When every named condition of the original stands unchanged in the
/// update (new ones may be added), nothing is dropped or loosened and
/// nothing needs review: the update does not weaken the thesis.
pub proof fn law_kept_conditions_are_clean(original: Seq<Condition>, updated: Seq<Condition>)
    requires
        forall|n: Seq<char>| #[trigger] by_name(original).contains_key(n) ==> by_name(updated).contains_key(n)
            && by_name(updated)[n] == by_name(original)[n],
    ensures
        dropped_set(original, updated).is_empty(),
        loosened_set(original, updated).is_empty(),
        !some_review(original, updated),
{
    assert(dropped_set(original, updated) =~= Set::empty());
    assert forall|n: Seq<char>| !#[trigger] loosened_set(original, updated).contains(n) by {
        if by_name(original).contains_key(n) {
            lemma_same_condition_unchanged(by_name(original)[n]);
        }
    }
    assert(loosened_set(original, updated) =~= Set::empty());
    assert forall|n: Seq<char>| !(by_name(original).contains_key(n) && by_name(updated).contains_key(n)
        && #[trigger] review_pair(by_name(original)[n], by_name(updated)[n])) by {
        if by_name(original).contains_key(n) {
            lemma_same_condition_unchanged(by_name(original)[n]);
        }
    }
}

/// A condition set compared with itself is clean: nothing dropped, added,
/// loosened, or to review.
pub proof fn law_identical_is_clean(c: Seq<Condition>)
    ensures
        dropped_set(c, c).is_empty(),
        added_set(c, c).is_empty(),
        loosened_set(c, c).is_empty(),
        !some_review(c, c),
        sorted_enum(dropped_set(c, c)).len() == 0,
        sorted_enum(added_set(c, c)).len() == 0,
{
    law_kept_conditions_are_clean(c, c);
    assert(added_set(c, c) =~= Set::empty());
    assert(dropped_set(c, c) =~= Set::empty());
    lemma_sorted_enum_empty();
}

/// Against an empty original nothing can be dropped or loosened, so the
/// update never weakens.
pub proof fn law_empty_original_never_weakened(updated: Seq<Condition>)
    ensures
        dropped_set(Seq::empty(), updated).is_empty(),
        loosened_set(Seq::empty(), updated).is_empty(),
{
    assert(by_name(Seq::<Condition>::empty()) =~= Map::empty());
    assert(dropped_set(Seq::empty(), updated) =~= Set::empty());
    assert(loosened_set(Seq::empty(), updated) =~= Set::empty());
}

/// Dropping every condition drops each named one of the original.
pub proof fn law_all_dropped(original: Seq<Condition>)
    ensures
        dropped_set(original, Seq::empty()) == by_name(original).dom(),
        loosened_set(original, Seq::empty()).is_empty(),
{
    assert(by_name(Seq::<Condition>::empty()) =~= Map::empty());
    assert(dropped_set(original, Seq::empty()) =~= by_name(original).dom());
    assert(loosened_set(original, Seq::empty()) =~= Set::empty());
}

proof fn lemma_by_name_finite(cs: Seq<Condition>)
    ensures
        by_name(cs).dom().finite(),
    decreases cs.len(),
{
    if cs.len() > 0 {
        lemma_by_name_finite(cs.drop_last());
        let m = by_name(cs.drop_last());
        let c = cs.last();
        if cond_name(c).len() > 0 {
            assert(m.insert(cond_name(c), c).dom() =~= m.dom().insert(cond_name(c)));
        }
    }
}

proof fn lemma_change_reason_listed(
    names: Seq<Seq<char>>,
    orig: Map<Seq<char>, Condition>,
    upd: Map<Seq<char>, Condition>,
    n: Seq<char>,
)
    requires
        names.contains(n),
        upd.contains_key(n),
        pair_reason(n, orig[n], upd[n]) is Some,
    ensures
        change_reasons(names, orig, upd).contains(pair_reason(n, orig[n], upd[n])->0),
    decreases names.len(),
{
    let prev = change_reasons(names.drop_last(), orig, upd);
    let whole = change_reasons(names, orig, upd);
    if names.last() == n {
        assert(whole == prev.push(pair_reason(n, orig[n], upd[n])->0));
        assert(whole[prev.len() as int] == pair_reason(n, orig[n], upd[n])->0);
    } else {
        let k = choose|k: int| 0 <= k < names.len() && names[k] == n;
        assert(names.drop_last()[k] == n);
        lemma_change_reason_listed(names.drop_last(), orig, upd, n);
        let r = pair_reason(n, orig[n], upd[n])->0;
        let j = choose|j: int| 0 <= j < prev.len() && prev[j] == r;
        let last = names.last();
        if upd.contains_key(last) && pair_reason(last, orig[last], upd[last]) is Some {
            assert(whole == prev.push(pair_reason(last, orig[last], upd[last])->0));
            assert(whole[j] == r);
        } else {
            assert(whole == prev);
        }
    }
}

/// Every name the original holds is among the names whose changes are
/// reported, so each changed pair's reason is listed.
proof fn lemma_pair_reason_reported(original: Seq<Condition>, updated: Seq<Condition>, n: Seq<char>)
    requires
        by_name(original).contains_key(n),
        by_name(updated).contains_key(n),
        pair_reason(n, by_name(original)[n], by_name(updated)[n]) is Some,
    ensures
        change_reasons(sorted_enum(by_name(original).dom()), by_name(original), by_name(updated)).contains(
            pair_reason(n, by_name(original)[n], by_name(updated)[n])->0,
        ),
{
    let o = by_name(original);
    lemma_by_name_finite(original);
    lemma_sorted_enum_exists(o.dom());
    assert(sorted_enum(o.dom()).to_set().contains(n));
    lemma_change_reason_listed(sorted_enum(o.dom()), o, by_name(updated), n);
}

/// A condition that changes kind between the versions (quantitative in one,
/// narrative in the other) always needs review, and the reasons say that
/// its type changed.
pub proof fn law_type_swap_needs_review(original: Seq<Condition>, updated: Seq<Condition>, n: Seq<char>)
    requires
        by_name(original).contains_key(n),
        by_name(updated).contains_key(n),
        (by_name(original)[n] is Quantitative) != (by_name(updated)[n] is Quantitative),
    ensures
        some_review(original, updated),
        change_reasons(sorted_enum(by_name(original).dom()), by_name(original), by_name(updated)).contains(
            "type changed for "@ + n + " \u{2014} human review"@,
        ),
{
    let o = by_name(original);
    let u = by_name(updated);
    assert(o.contains_key(n) && u.contains_key(n) && review_pair(o[n], u[n]));
    assert(pair_reason(n, o[n], u[n]) == Some("type changed for "@ + n + " \u{2014} human review"@));
    lemma_pair_reason_reported(original, updated, n);
}

/// A narrative condition whose assertion changes needs review, and the
/// reasons say so.
pub proof fn law_narrative_change_needs_review(original: Seq<Condition>, updated: Seq<Condition>, n: Seq<char>)
    requires
        by_name(original).contains_key(n),
        by_name(updated).contains_key(n),
        by_name(original)[n] matches Condition::Narrative { assertion: a, .. },
        by_name(updated)[n] matches Condition::Narrative { assertion: b, .. },
        by_name(original)[n]->Narrative_assertion@ != by_name(updated)[n]->Narrative_assertion@,
    ensures
        some_review(original, updated),
        change_reasons(sorted_enum(by_name(original).dom()), by_name(original), by_name(updated)).contains(
            "narrative changed for "@ + n + " \u{2014} human review"@,
        ),
{
    let o = by_name(original);
    let u = by_name(updated);
    assert(o.contains_key(n) && u.contains_key(n) && review_pair(o[n], u[n]));
    lemma_pair_reason_reported(original, updated, n);
}

/// A quantitative condition whose threshold loosens is reported loosened,
/// which weakens the thesis, with a reason naming both expressions.
pub proof fn law_loosened_weakens(original: Seq<Condition>, updated: Seq<Condition>, n: Seq<char>)
    requires
        by_name(original).contains_key(n),
        by_name(updated).contains_key(n),
        by_name(original)[n] is Quantitative,
        by_name(updated)[n] is Quantitative,
        looser(by_name(updated)[n]->Quantitative_expr@, by_name(original)[n]->Quantitative_expr@),
    ensures
        loosened_set(original, updated).contains(n),
        !loosened_set(original, updated).is_empty(),
        change_reasons(sorted_enum(by_name(original).dom()), by_name(original), by_name(updated)).contains(
            "loosened "@ + n + ": "@ + by_name(original)[n]->Quantitative_expr@ + " \u{2192} "@
                + by_name(updated)[n]->Quantitative_expr@,
        ),
{
    assert(loosened_set(original, updated).contains(n));
    assert(!Set::<Seq<char>>::empty().contains(n));
    lemma_pair_reason_reported(original, updated, n);
}

/// A named condition of the original that the update no longer holds is
/// reported dropped, which weakens the thesis.
pub proof fn law_dropped_weakens(original: Seq<Condition>, updated: Seq<Condition>, n: Seq<char>)
    requires
        by_name(original).contains_key(n),
        !by_name(updated).contains_key(n),
    ensures
        dropped_set(original, updated).contains(n),
        !dropped_set(original, updated).is_empty(),
        sorted_enum(dropped_set(original, updated)).contains(n),
{
    lemma_by_name_finite(original);
    let d = dropped_set(original, updated);
    assert(d.contains(n));
    assert(!Set::<Seq<char>>::empty().contains(n));
    assert(d.subset_of(by_name(original).dom()));
    vstd::set_lib::lemma_set_subset_finite(by_name(original).dom(), d);
    lemma_sorted_enum_exists(d);
    assert(sorted_enum(d).to_set().contains(n));
}

} // verus!
