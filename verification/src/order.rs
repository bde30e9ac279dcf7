//! Lexicographic order on character sequences (code-point order, which is the
//! order `String`'s `Ord` gives, since UTF-8 preserves it), strictly sorted
//! sequences, and the sorted enumeration of a finite set of strings.

use vstd::prelude::*;
use crate::text::copy_string;

verus! {

/// `a` sorts strictly before `b`.
pub open spec fn lex_lt(a: Seq<char>, b: Seq<char>) -> bool
    decreases a.len(),
{
    if a.len() == 0 {
        b.len() > 0
    } else if b.len() == 0 {
        false
    } else if a[0] != b[0] {
        (a[0] as u32) < (b[0] as u32)
    } else {
        lex_lt(a.drop_first(), b.drop_first())
    }
}

/// Every element sorts strictly before every later one.
pub open spec fn sorted_strict(s: Seq<Seq<char>>) -> bool {
    forall|i: int, j: int| 0 <= i < j < s.len() ==> lex_lt(#[trigger] s[i], #[trigger] s[j])
}

/// The strictly sorted sequence that holds exactly the elements of `s`.
pub open spec fn sorted_enum(s: Set<Seq<char>>) -> Seq<Seq<char>> {
    choose|q: Seq<Seq<char>>| sorted_strict(q) && q.to_set() == s
}

/// The views of a sequence of strings.
pub open spec fn views(v: Seq<String>) -> Seq<Seq<char>> {
    v.map_values(|s: String| s@)
}

pub proof fn lemma_lex_irrefl(a: Seq<char>)
    ensures
        !lex_lt(a, a),
    decreases a.len(),
{
    if a.len() > 0 {
        lemma_lex_irrefl(a.drop_first());
    }
}

pub proof fn lemma_lex_trans(a: Seq<char>, b: Seq<char>, c: Seq<char>)
    requires
        lex_lt(a, b),
        lex_lt(b, c),
    ensures
        lex_lt(a, c),
    decreases a.len(),
{
    if a.len() > 0 && b.len() > 0 && c.len() > 0 {
        if a[0] == b[0] && b[0] == c[0] {
            lemma_lex_trans(a.drop_first(), b.drop_first(), c.drop_first());
        }
    }
}

pub proof fn lemma_lex_total(a: Seq<char>, b: Seq<char>)
    ensures
        a == b || lex_lt(a, b) || lex_lt(b, a),
    decreases a.len(),
{
    if a.len() == 0 && b.len() == 0 {
        assert(a =~= b);
    } else if a.len() > 0 && b.len() > 0 && a[0] == b[0] {
        lemma_lex_total(a.drop_first(), b.drop_first());
        if a.drop_first() == b.drop_first() {
            assert(a.drop_first().len() == a.len() - 1);
            assert(b.drop_first().len() == b.len() - 1);
            assert(a.len() == b.len());
            assert(a =~= b) by {
                assert forall|k: int| 0 <= k < a.len() implies a[k] == b[k] by {
                    if k > 0 {
                        assert(a[k] == a.drop_first()[k - 1]);
                        assert(b[k] == b.drop_first()[k - 1]);
                    }
                }
            }
        }
    } else if a.len() > 0 && b.len() > 0 {
        vstd::utf8::char_u32_cast(a[0], a[0] as u32);
        vstd::utf8::char_u32_cast(b[0], b[0] as u32);
        assert((a[0] as u32) != (b[0] as u32));
    }
}

pub proof fn lemma_lex_asym(a: Seq<char>, b: Seq<char>)
    requires
        lex_lt(a, b),
    ensures
        !lex_lt(b, a),
        a != b,
{
    lemma_lex_irrefl(a);
    if lex_lt(b, a) {
        lemma_lex_trans(a, b, a);
    }
}

/// Comparing from index `i` on is comparing the whole when the first `i`
/// characters agree.
proof fn lemma_lex_skip(a: Seq<char>, b: Seq<char>, i: int)
    requires
        0 <= i <= a.len(),
        i <= b.len(),
        a.take(i) == b.take(i),
    ensures
        lex_lt(a, b) == lex_lt(a.skip(i), b.skip(i)),
    decreases i,
{
    if i > 0 {
        assert(a[0] == a.take(i)[0]);
        assert(b[0] == b.take(i)[0]);
        assert(a.drop_first().take(i - 1) =~= a.take(i).drop_first());
        assert(b.drop_first().take(i - 1) =~= b.take(i).drop_first());
        lemma_lex_skip(a.drop_first(), b.drop_first(), i - 1);
        assert(a.drop_first().skip(i - 1) =~= a.skip(i));
        assert(b.drop_first().skip(i - 1) =~= b.skip(i));
    } else {
        assert(a.skip(0) =~= a);
        assert(b.skip(0) =~= b);
    }
}

/// `lex_lt` on character vectors.
pub fn lex_lt_chars(a: &Vec<char>, b: &Vec<char>) -> (r: bool)
    ensures
        r == lex_lt(a@, b@),
{
    let mut i: usize = 0;
    while i < a.len() && i < b.len()
        invariant
            i <= a@.len(),
            i <= b@.len(),
            a@.take(i as int) == b@.take(i as int),
        decreases a.len() - i,
    {
        if a[i] != b[i] {
            proof {
                lemma_lex_skip(a@, b@, i as int);
                assert(a@.skip(i as int)[0] == a@[i as int]);
                assert(b@.skip(i as int)[0] == b@[i as int]);
            }
            return (a[i] as u32) < (b[i] as u32);
        }
        assert(a@.take(i + 1) =~= a@.take(i as int).push(a@[i as int]));
        assert(b@.take(i + 1) =~= b@.take(i as int).push(b@[i as int]));
        i += 1;
    }
    proof {
        lemma_lex_skip(a@, b@, i as int);
    }
    i < b.len()
}

/// `lex_lt` on strings.
pub fn lex_lt_strings(a: &String, b: &String) -> (r: bool)
    ensures
        r == lex_lt(a@, b@),
{
    let x = crate::text::chars_of(a.as_str());
    let y = crate::text::chars_of(b.as_str());
    lex_lt_chars(&x, &y)
}

/// Two strictly sorted sequences with the same elements are equal.
pub proof fn lemma_sorted_unique(a: Seq<Seq<char>>, b: Seq<Seq<char>>)
    requires
        sorted_strict(a),
        sorted_strict(b),
        a.to_set() == b.to_set(),
    ensures
        a == b,
    decreases a.len(),
{
    if a.len() == 0 {
        if b.len() > 0 {
            assert(b.to_set().contains(b[0]));
        }
        assert(a =~= b);
    } else {
        assert(a.to_set().contains(a[0]));
        assert(b.len() > 0);
        assert(b.to_set().contains(b[0]));
        let i = choose|i: int| 0 <= i < a.len() && a[i] == b[0];
        let j = choose|j: int| 0 <= j < b.len() && b[j] == a[0];
        if a[0] != b[0] {
            assert(i > 0 && j > 0);
            assert(lex_lt(a[0], a[i]));
            assert(lex_lt(b[0], b[j]));
            lemma_lex_asym(a[0], b[0]);
        }
        let a1 = a.drop_first();
        let b1 = b.drop_first();
        assert(sorted_strict(a1)) by {
            assert forall|x: int, y: int| 0 <= x < y < a1.len() implies lex_lt(
                #[trigger] a1[x],
                #[trigger] a1[y],
            ) by {
                assert(a1[x] == a[x + 1] && a1[y] == a[y + 1]);
            }
        }
        assert(sorted_strict(b1)) by {
            assert forall|x: int, y: int| 0 <= x < y < b1.len() implies lex_lt(
                #[trigger] b1[x],
                #[trigger] b1[y],
            ) by {
                assert(b1[x] == b[x + 1] && b1[y] == b[y + 1]);
            }
        }
        assert(a1.to_set() =~= b1.to_set()) by {
            assert forall|e: Seq<char>| a1.to_set().contains(e) implies b1.to_set().contains(e) by {
                let k = choose|k: int| 0 <= k < a1.len() && a1[k] == e;
                assert(a[k + 1] == e);
                assert(lex_lt(a[0], e));
                assert(b.to_set().contains(e));
                let m = choose|m: int| 0 <= m < b.len() && b[m] == e;
                lemma_lex_irrefl(e);
                assert(m != 0);
                assert(b1[m - 1] == e);
            }
            assert forall|e: Seq<char>| b1.to_set().contains(e) implies a1.to_set().contains(e) by {
                let k = choose|k: int| 0 <= k < b1.len() && b1[k] == e;
                assert(b[k + 1] == e);
                assert(lex_lt(b[0], e));
                assert(a.to_set().contains(e));
                let m = choose|m: int| 0 <= m < a.len() && a[m] == e;
                lemma_lex_irrefl(e);
                assert(m != 0);
                assert(a1[m - 1] == e);
            }
        }
        lemma_sorted_unique(a1, b1);
        assert(a =~= b) by {
            assert forall|k: int| 0 <= k < a.len() implies a[k] == b[k] by {
                if k > 0 {
                    assert(a[k] == a1[k - 1]);
                    assert(b[k] == b1[k - 1]);
                }
            }
        }
    }
}

/// A strictly sorted sequence is the sorted enumeration of its elements.
pub proof fn lemma_sorted_enum(q: Seq<Seq<char>>)
    requires
        sorted_strict(q),
    ensures
        sorted_enum(q.to_set()) == q,
{
    let s = q.to_set();
    let e = sorted_enum(s);
    assert(sorted_strict(e) && e.to_set() == s);
    lemma_sorted_unique(e, q);
}

/// Where `x` belongs among the strictly sorted `v`: its index if present, else
/// the index of the first element after it.
pub fn find_slot(v: &Vec<String>, x: &String) -> (r: (usize, bool))
    requires
        sorted_strict(views(v@)),
    ensures
        r.0 <= v@.len(),
        forall|q: int| 0 <= q < r.0 ==> lex_lt(#[trigger] views(v@)[q], x@),
        r.1 ==> r.0 < v@.len() && views(v@)[r.0 as int] == x@,
        !r.1 ==> r.0 == v@.len() || lex_lt(x@, views(v@)[r.0 as int]),
{
    let ghost ks = views(v@);
    let mut p: usize = 0;
    while p < v.len()
        invariant
            p <= v@.len(),
            ks == views(v@),
            forall|q: int| 0 <= q < p ==> lex_lt(#[trigger] ks[q], x@),
        decreases v.len() - p,
    {
        if v[p] == *x {
            return (p, true);
        }
        if lex_lt_strings(x, &v[p]) {
            return (p, false);
        }
        proof {
            lemma_lex_total(x@, ks[p as int]);
        }
        p += 1;
    }
    (p, false)
}

/// Inserts `x` into the strictly sorted `v` unless it is already there.
fn insert_sorted(v: &mut Vec<String>, x: String)
    requires
        sorted_strict(views(old(v)@)),
    ensures
        sorted_strict(views(final(v)@)),
        views(final(v)@).to_set() == views(old(v)@).to_set().insert(x@),
{
    let ghost ks = views(v@);
    let (p, found) = find_slot(v, &x);
    if found {
        assert(ks.to_set().insert(x@) =~= ks.to_set());
        return;
    }
    let ghost xv = x@;
    v.insert(p, x);
    proof {
        let ks2 = views(v@);
        assert(ks2 =~= ks.insert(p as int, xv));
        assert forall|q2: int| p <= q2 < ks.len() implies lex_lt(xv, #[trigger] ks[q2]) by {
            if q2 > p {
                lemma_lex_trans(xv, ks[p as int], ks[q2]);
            }
        }
        assert forall|a: int, b: int| 0 <= a < b < ks2.len() implies lex_lt(
            #[trigger] ks2[a],
            #[trigger] ks2[b],
        ) by {
            if b < p {
                assert(ks2[a] == ks[a] && ks2[b] == ks[b]);
            } else if b == p {
                assert(ks2[a] == ks[a]);
            } else if a == p {
                assert(ks2[b] == ks[b - 1]);
            } else if a < p {
                assert(ks2[a] == ks[a] && ks2[b] == ks[b - 1]);
                lemma_lex_trans(ks[a], xv, ks[b - 1]);
            } else {
                assert(ks2[a] == ks[a - 1] && ks2[b] == ks[b - 1]);
            }
        }
        assert forall|e: Seq<char>| #[trigger] ks2.to_set().contains(e) <==> ks.to_set().insert(
            xv,
        ).contains(e) by {
            if ks2.to_set().contains(e) {
                let k = choose|k: int| 0 <= k < ks2.len() && ks2[k] == e;
                if k < p {
                    assert(ks[k] == e);
                } else if k > p {
                    assert(ks[k - 1] == e);
                }
            }
            if ks.to_set().contains(e) {
                let k = choose|k: int| 0 <= k < ks.len() && ks[k] == e;
                if k < p {
                    assert(ks2[k] == e);
                } else {
                    assert(ks2[k + 1] == e);
                }
            }
            if e == xv {
                assert(ks2[p as int] == e);
            }
        }
        assert(ks2.to_set() =~= ks.to_set().insert(xv));
    }
}

/// The distinct strings of `v` in sorted order (what `sort` then `dedup`
/// leaves).
pub fn sort_dedup(v: Vec<String>) -> (r: Vec<String>)
    ensures
        views(r@) == sorted_enum(views(v@).to_set()),
        sorted_strict(views(r@)),
        views(r@).to_set() == views(v@).to_set(),
        (r@.len() == 0) == views(v@).to_set().is_empty(),
{
    let mut r: Vec<String> = Vec::new();
    let mut i: usize = 0;
    assert(views(r@) =~= Seq::<Seq<char>>::empty());
    assert(views(v@).take(0).to_set() =~= Set::empty());
    assert(views(r@).to_set() =~= Set::empty());
    while i < v.len()
        invariant
            i <= v@.len(),
            sorted_strict(views(r@)),
            views(r@).to_set() == views(v@).take(i as int).to_set(),
        decreases v.len() - i,
    {
        let x = v[i].clone();
        insert_sorted(&mut r, x);
        assert(views(v@).take(i + 1) =~= views(v@).take(i as int).push(v@[i as int]@));
        assert(views(v@).take(i + 1).to_set() =~= views(v@).take(i as int).to_set().insert(
            v@[i as int]@,
        )) by {
            views(v@).take(i as int).lemma_push_to_set_commute(v@[i as int]@);
        }
        i += 1;
    }
    assert(views(v@).take(v@.len() as int) =~= views(v@));
    proof {
        lemma_sorted_enum(views(r@));
        lemma_seq_set_empty(views(r@));
    }
    r
}

/// A sequence is empty exactly when its set of elements is.
pub proof fn lemma_seq_set_empty(q: Seq<Seq<char>>)
    ensures
        (q.len() == 0) == q.to_set().is_empty(),
{
    if q.len() > 0 {
        assert(q.to_set().contains(q[0]));
    } else {
        assert(q.to_set() =~= Set::empty());
    }
}

/// `{s}` when `c` holds, else nothing.
#[verifier::opaque]
pub open spec fn reason_if(c: bool, s: Seq<char>) -> Set<Seq<char>> {
    if c {
        set![s]
    } else {
        Set::empty()
    }
}

/// Adds `s` to the collected reasons when `c` holds.
pub fn push_when(v: &mut Vec<String>, c: bool, s: &str)
    ensures
        views(final(v)@).to_set() == views(old(v)@).to_set() + reason_if(c, s@),
{
    let ghost before = views(v@);
    reveal(reason_if);
    if c {
        v.push(crate::text::owned(s));
        proof {
            assert(views(v@) =~= before.push(s@));
            before.lemma_push_to_set_commute(s@);
            assert(before.to_set().insert(s@) =~= before.to_set() + set![s@]);
        }
    } else {
        assert(views(v@).to_set() =~= before.to_set() + Set::empty());
    }
}

/// Adds all of `items` to the collected reasons, each with `prefix` in front.
pub fn push_all_prefixed(v: &mut Vec<String>, prefix: &str, items: &Vec<String>)
    ensures
        views(final(v)@).to_set() == views(old(v)@).to_set() + views(items@).map_values(
            |r: Seq<char>| prefix@ + r,
        ).to_set(),
{
    let ghost before = views(v@);
    let ghost mapped = views(items@).map_values(|r: Seq<char>| prefix@ + r);
    let mut i: usize = 0;
    while i < items.len()
        invariant
            i <= items@.len(),
            mapped == views(items@).map_values(|r: Seq<char>| prefix@ + r),
            views(v@) == before + mapped.take(i as int),
        decreases items.len() - i,
    {
        let mut t = crate::text::owned(prefix);
        crate::text::append_string(&mut t, &items[i]);
        let ghost prev = views(v@);
        let ghost tv = t@;
        v.push(t);
        assert(views(v@) =~= prev.push(tv));
        assert(mapped.take(i + 1) =~= mapped.take(i as int).push(mapped[i as int]));
        assert(views(v@) =~= before + mapped.take(i + 1));
        i += 1;
    }
    assert(mapped.take(items@.len() as int) =~= mapped);
    assert forall|x: Seq<char>| #[trigger] (before + mapped).to_set().contains(x) <==> (
    before.to_set() + mapped.to_set()).contains(x) by {
        if (before + mapped).to_set().contains(x) {
            let k = choose|k: int| 0 <= k < (before + mapped).len() && (before + mapped)[k] == x;
            if k < before.len() {
                assert(before[k] == x);
            } else {
                assert(mapped[k - before.len()] == x);
            }
        }
        if before.to_set().contains(x) {
            let k = choose|k: int| 0 <= k < before.len() && before[k] == x;
            assert((before + mapped)[k] == x);
        }
        if mapped.to_set().contains(x) {
            let k = choose|k: int| 0 <= k < mapped.len() && mapped[k] == x;
            assert((before + mapped)[k + before.len()] == x);
        }
    }
    assert((before + mapped).to_set() =~= before.to_set() + mapped.to_set());
}

/// The enumeration of the empty set is empty.
pub proof fn lemma_sorted_enum_empty()
    ensures
        sorted_enum(Set::<Seq<char>>::empty()).len() == 0,
{
    let q = Seq::<Seq<char>>::empty();
    lemma_sorted_enum(q);
    assert(q.to_set() =~= Set::<Seq<char>>::empty());
}

/// A finite nonempty set of strings has a least element.
proof fn lemma_set_min(s: Set<Seq<char>>) -> (m: Seq<char>)
    requires
        s.finite(),
        s.len() > 0,
    ensures
        s.contains(m),
        forall|y: Seq<char>| s.contains(y) && y != m ==> lex_lt(m, y),
    decreases s.len(),
{
    let x = s.choose();
    let rest = s.remove(x);
    assert(rest.len() == s.len() - 1);
    if rest.len() == 0 {
        rest.lemma_len0_is_empty();
        assert forall|y: Seq<char>| s.contains(y) && y != x implies lex_lt(x, y) by {
            assert(rest.contains(y));
        }
        x
    } else {
        let m2 = lemma_set_min(rest);
        lemma_lex_total(x, m2);
        if lex_lt(x, m2) {
            assert forall|y: Seq<char>| s.contains(y) && y != x implies lex_lt(x, y) by {
                assert(rest.contains(y));
                if y != m2 {
                    lemma_lex_trans(x, m2, y);
                }
            }
            x
        } else {
            assert forall|y: Seq<char>| s.contains(y) && y != m2 implies lex_lt(m2, y) by {
                if y != x {
                    assert(rest.contains(y));
                }
            }
            m2
        }
    }
}

/// Every finite set of strings has a strictly sorted enumeration, so
/// `sorted_enum` of it is sorted, without repeats, and holds exactly its elements.
pub proof fn lemma_sorted_enum_exists(s: Set<Seq<char>>)
    requires
        s.finite(),
    ensures
        sorted_strict(sorted_enum(s)),
        sorted_enum(s).to_set() == s,
    decreases s.len(),
{
    if s.len() == 0 {
        s.lemma_len0_is_empty();
        let q = Seq::<Seq<char>>::empty();
        assert(q.to_set() =~= s);
        assert(sorted_strict(q));
    } else {
        let m = lemma_set_min(s);
        let rest = s.remove(m);
        lemma_sorted_enum_exists(rest);
        let t = sorted_enum(rest);
        let q = seq![m] + t;
        assert forall|i: int, j: int| 0 <= i < j < q.len() implies lex_lt(#[trigger] q[i], #[trigger] q[j]) by {
            if i == 0 {
                assert(q[j] == t[j - 1]);
                assert(t.to_set().contains(t[j - 1]));
            } else {
                assert(q[i] == t[i - 1] && q[j] == t[j - 1]);
            }
        }
        assert forall|x: Seq<char>| #[trigger] q.to_set().contains(x) <==> s.contains(x) by {
            if q.to_set().contains(x) {
                let k = choose|k: int| 0 <= k < q.len() && q[k] == x;
                if k > 0 {
                    assert(t[k - 1] == x);
                    assert(t.to_set().contains(x));
                }
            }
            if s.contains(x) && x != m {
                assert(rest.contains(x));
                assert(t.to_set().contains(x));
                let k = choose|k: int| 0 <= k < t.len() && t[k] == x;
                assert(q[k + 1] == x);
            }
            if x == m {
                assert(q[0] == x);
            }
        }
        assert(q.to_set() =~= s);
    }
}

/// A copy of a list of strings.
pub fn copy_strings(v: &Vec<String>) -> (r: Vec<String>)
    ensures
        views(r@) == views(v@),
{
    let mut r: Vec<String> = Vec::new();
    let mut i: usize = 0;
    while i < v.len()
        invariant
            i <= v@.len(),
            views(r@) == views(v@).take(i as int),
        decreases v.len() - i,
    {
        let ghost prev = r@;
        let c = copy_string(&v[i]);
        r.push(c);
        assert(views(r@) =~= views(prev).push(v@[i as int]@));
        assert(views(r@) =~= views(v@).take(i + 1));
        i += 1;
    }
    assert(views(v@).take(v@.len() as int) =~= views(v@));
    r
}

} // verus!
