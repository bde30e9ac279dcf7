//! Numerals as `f64` parsing reads them (`inf`, `infinity`, `nan`, and
//! decimals with an optional exponent) and their order, used for the
//! right-hand side of simple threshold expressions such as
//! `gross_margin < 45`. Finite numerals are ordered by their exact decimal
//! value, without rounding them to binary floating point; an exponent is
//! read up to `EXPONENT_LIMIT` in magnitude, far beyond where a float
//! saturates to infinity or zero. `NaN` is ordered with nothing.

use vstd::prelude::*;
use crate::text::{chars_eq, chars_of, lower, lower_chars};

verus! {

/// The largest exponent magnitude read; a larger exponent counts as this.
pub const EXPONENT_LIMIT: i128 = 1_000_000_000_000_000_000;

/// A parsed numeral. A finite one is `digits * 10^exponent`, negated when
/// `negative`.
#[derive(Clone, Debug)]
pub enum Numeral {
    NotANumber,
    Infinite { negative: bool },
    Finite { negative: bool, digits: Vec<char>, exponent: i128 },
}

/// The plain-value form of a [`Numeral`].
pub enum NumeralView {
    NotANumber,
    Infinite { negative: bool },
    Finite { negative: bool, digits: Seq<char>, exponent: int },
}

impl View for Numeral {
    type V = NumeralView;

    open spec fn view(&self) -> NumeralView {
        match self {
            Numeral::NotANumber => NumeralView::NotANumber,
            Numeral::Infinite { negative } => NumeralView::Infinite { negative: *negative },
            Numeral::Finite { negative, digits, exponent } => NumeralView::Finite {
                negative: *negative,
                digits: digits@,
                exponent: *exponent as int,
            },
        }
    }
}

pub open spec fn is_digit(c: char) -> bool {
    '0' <= c && c <= '9'
}

pub open spec fn all_digits(d: Seq<char>) -> bool {
    forall|i: int| 0 <= i < d.len() ==> is_digit(#[trigger] d[i])
}

pub open spec fn digit_val(c: char) -> nat {
    ((c as u32) - ('0' as u32)) as nat
}

/// The value of a digit string read in base ten.
pub open spec fn digits_val(d: Seq<char>) -> nat
    decreases d.len(),
{
    if d.len() == 0 {
        0
    } else {
        digits_val(d.drop_last()) * 10 + digit_val(d.last())
    }
}

pub open spec fn pow10(n: nat) -> nat
    decreases n,
{
    if n == 0 {
        1
    } else {
        10 * pow10((n - 1) as nat)
    }
}


/// `digits * 10^shift`, negated when `negative`.
pub open spec fn scaled(negative: bool, digits: Seq<char>, shift: nat) -> int {
    let m = digits_val(digits) * pow10(shift);
    if negative {
        -(m as int)
    } else {
        m as int
    }
}

pub open spec fn min_int(a: int, b: int) -> int {
    if a <= b {
        a
    } else {
        b
    }
}

/// `a < b` as `f64` comparison orders numerals: never with `NaN`;
/// infinities beyond every finite value; finite values by their exact value.
pub open spec fn num_lt(a: NumeralView, b: NumeralView) -> bool {
    match (a, b) {
        (NumeralView::NotANumber, _) => false,
        (_, NumeralView::NotANumber) => false,
        (NumeralView::Infinite { negative: na }, NumeralView::Infinite { negative: nb }) => na && !nb,
        (NumeralView::Infinite { negative: na }, NumeralView::Finite { .. }) => na,
        (NumeralView::Finite { .. }, NumeralView::Infinite { negative: nb }) => !nb,
        (
            NumeralView::Finite { negative: na, digits: da, exponent: ea },
            NumeralView::Finite { negative: nb, digits: db, exponent: eb },
        ) => {
            let m = min_int(ea, eb);
            scaled(na, da, (ea - m) as nat) < scaled(nb, db, (eb - m) as nat)
        },
    }
}

/// A finite numeral holds digits only, and its exponent lies within the
/// limit, less the number of its digits.
pub open spec fn wf(n: NumeralView) -> bool {
    match n {
        NumeralView::Finite { digits, exponent, .. } => all_digits(digits) && -EXPONENT_LIMIT - digits.len()
            <= exponent <= EXPONENT_LIMIT,
        _ => true,
    }
}

/// Index of the first occurrence of `c` in `s` at or after `i`.
pub open spec fn find_char_from(s: Seq<char>, c: char, i: int) -> Option<int>
    decreases s.len() - i,
{
    if i < 0 || i >= s.len() {
        None
    } else if s[i] == c {
        Some(i)
    } else {
        find_char_from(s, c, i + 1)
    }
}

/// The accepted numeral grammar: an optional sign, digits, and an optional

/// Index of the first exponent mark (`e` or `E`) in `s` at or after `i`.
pub open spec fn find_exp_from(s: Seq<char>, i: int) -> Option<int>
    decreases s.len() - i,
{
    if i < 0 || i >= s.len() {
        None
    } else if s[i] == 'e' || s[i] == 'E' {
        Some(i)
    } else {
        find_exp_from(s, i + 1)
    }
}

pub open spec fn clamp_exponent(e: int) -> int {
    if e > EXPONENT_LIMIT {
        EXPONENT_LIMIT as int
    } else if e < -EXPONENT_LIMIT {
        -EXPONENT_LIMIT
    } else {
        e
    }
}

/// An exponent: an optional sign and at least one digit.
pub open spec fn parse_exponent(x: Seq<char>) -> Option<int> {
    let neg = x.len() > 0 && x[0] == '-';
    let d = if x.len() > 0 && (x[0] == '-' || x[0] == '+') {
        x.drop_first()
    } else {
        x
    };
    if d.len() > 0 && all_digits(d) {
        Some(if neg { -digits_val(d) } else { digits_val(d) as int })
    } else {
        None
    }
}

/// A mantissa: digits, and an optional point followed by digits, with at
/// least one digit in all; gives the digits before and after the point.
pub open spec fn parse_mantissa(m: Seq<char>) -> Option<(Seq<char>, Seq<char>)> {
    let (ip, fp) = match find_char_from(m, '.', 0) {
        Some(k) => (m.take(k), m.skip(k + 1)),
        None => (m, Seq::<char>::empty()),
    };
    if all_digits(ip) && all_digits(fp) && ip.len() + fp.len() > 0 {
        Some((ip, fp))
    } else {
        None
    }
}

/// The grammar `f64` parsing accepts: an optional sign, then `inf`,
/// `infinity` or `nan` in any case, or a mantissa with an optional exponent
/// (`e` or `E`, an optional sign and digits).
pub open spec fn parse_numeral(s: Seq<char>) -> Option<NumeralView> {
    let neg = s.len() > 0 && s[0] == '-';
    let body = if s.len() > 0 && (s[0] == '-' || s[0] == '+') {
        s.drop_first()
    } else {
        s
    };
    let word = lower(body);
    if word == "inf"@ || word == "infinity"@ {
        Some(NumeralView::Infinite { negative: neg })
    } else if word == "nan"@ {
        Some(NumeralView::NotANumber)
    } else {
        let (mant, exp) = match find_exp_from(body, 0) {
            Some(k) => (body.take(k), Some(body.skip(k + 1))),
            None => (body, None),
        };
        let e = match exp {
            None => Some(0int),
            Some(x) => parse_exponent(x),
        };
        match (parse_mantissa(mant), e) {
            (Some((ip, fp)), Some(e)) => Some(
                NumeralView::Finite { negative: neg, digits: ip + fp, exponent: clamp_exponent(e) - fp.len() },
            ),
            _ => None,
        }
    }
}

// ------------------------------------------------------------------ lemmas

proof fn lemma_pow10_pos(n: nat)
    ensures
        pow10(n) >= 1,
    decreases n,
{
    if n > 0 {
        lemma_pow10_pos((n - 1) as nat);
    }
}

/// Concatenation: the digits of `x` shift left by the length of `y`.
proof fn lemma_digits_concat(x: Seq<char>, y: Seq<char>)
    ensures
        digits_val(x + y) == digits_val(x) * pow10(y.len()) + digits_val(y),
    decreases y.len(),
{
    if y.len() == 0 {
        assert(x + y =~= x);
        assert(pow10(0) == 1);
        assert(digits_val(y) == 0);
    } else {
        let y1 = y.drop_last();
        lemma_digits_concat(x, y1);
        assert((x + y).drop_last() =~= x + y1);
        assert((x + y).last() == y.last());
        let a = digits_val(x);
        let p = pow10(y1.len());
        let b = digits_val(y1);
        assert(digits_val(x + y) == (a * p + b) * 10 + digit_val(y.last()));
        assert(y1.len() == (y.len() - 1) as nat);
        assert(pow10(y.len()) == 10 * p);
        assert(digits_val(y) == b * 10 + digit_val(y.last()));
        assert((a * p + b) * 10 == a * (10 * p) + b * 10) by (nonlinear_arith);
    }
}

proof fn lemma_digits_bound(d: Seq<char>)
    requires
        all_digits(d),
    ensures
        digits_val(d) < pow10(d.len()),
    decreases d.len(),
{
    if d.len() > 0 {
        let d1 = d.drop_last();
        assert(all_digits(d1)) by {
            assert forall|i: int| 0 <= i < d1.len() implies is_digit(#[trigger] d1[i]) by {
                assert(d1[i] == d[i]);
            }
        }
        lemma_digits_bound(d1);
        assert(is_digit(d[d.len() - 1]));
        let v = digits_val(d1);
        let p = pow10(d1.len());
        assert(digit_val(d.last()) <= 9);
        assert(v + 1 <= p);
        assert(v * 10 + 9 < 10 * p) by (nonlinear_arith)
            requires
                v + 1 <= p,
        ;
    }
}

/// Equal-length digit strings that agree up to `k` and differ at `k` are
/// ordered by their digits at `k`.
proof fn lemma_digits_first_difference(a: Seq<char>, b: Seq<char>, k: int)
    requires
        a.len() == b.len(),
        all_digits(a),
        all_digits(b),
        0 <= k < a.len(),
        a.take(k) == b.take(k),
        (a[k] as u32) < (b[k] as u32),
    ensures
        digits_val(a) < digits_val(b),
{
    let r = (a.len() - k - 1) as nat;
    let ha = a.take(k + 1);
    let hb = b.take(k + 1);
    let ta = a.skip(k + 1);
    let tb = b.skip(k + 1);
    assert(a =~= ha + ta);
    assert(b =~= hb + tb);
    lemma_digits_concat(ha, ta);
    lemma_digits_concat(hb, tb);
    assert(ha.drop_last() =~= a.take(k));
    assert(hb.drop_last() =~= b.take(k));
    assert(is_digit(a[k]) && is_digit(b[k]));
    assert(digits_val(ha) + 1 <= digits_val(hb));
    assert(all_digits(ta)) by {
        assert forall|i: int| 0 <= i < ta.len() implies is_digit(#[trigger] ta[i]) by {
            assert(ta[i] == a[k + 1 + i]);
        }
    }
    lemma_digits_bound(ta);
    let p = pow10(r);
    let x = digits_val(ha);
    let y = digits_val(hb);
    let u = digits_val(ta);
    let w = digits_val(tb);
    assert(x * p + u < y * p + w) by (nonlinear_arith)
        requires
            x + 1 <= y,
            u < p,
    ;
}

proof fn lemma_all_digits_concat(x: Seq<char>, y: Seq<char>)
    requires
        all_digits(x),
        all_digits(y),
    ensures
        all_digits(x + y),
{
    assert forall|i: int| 0 <= i < (x + y).len() implies is_digit(#[trigger] (x + y)[i]) by {
        if i < x.len() {
            assert((x + y)[i] == x[i]);
        } else {
            assert((x + y)[i] == y[i - x.len()]);
        }
    }
}

proof fn lemma_zeros(n: nat)
    ensures
        all_digits(Seq::new(n, |i: int| '0')),
        digits_val(Seq::new(n, |i: int| '0')) == 0,
    decreases n,
{
    let z = Seq::new(n, |i: int| '0');
    if n > 0 {
        lemma_zeros((n - 1) as nat);
        assert(z.drop_last() =~= Seq::new((n - 1) as nat, |i: int| '0'));
    }
}

// ------------------------------------------------------------------ exec

#[derive(PartialEq, Eq, Structural, Clone, Copy, Debug)]
pub enum Rel {
    Below,
    Same,
    Above,
}

/// Compares two digit strings of the same length by value.
fn compare_digits(a: &Vec<char>, b: &Vec<char>) -> (r: Rel)
    requires
        a@.len() == b@.len(),
        all_digits(a@),
        all_digits(b@),
    ensures
        r == Rel::Below ==> digits_val(a@) < digits_val(b@),
        r == Rel::Above ==> digits_val(b@) < digits_val(a@),
        r == Rel::Same ==> a@ == b@,
{
    let mut i: usize = 0;
    while i < a.len()
        invariant
            a@.len() == b@.len(),
            all_digits(a@),
            all_digits(b@),
            i <= a@.len(),
            a@.take(i as int) == b@.take(i as int),
        decreases a.len() - i,
    {
        if a[i] != b[i] {
            proof {
                vstd::utf8::char_u32_cast(a@[i as int], a@[i as int] as u32);
                vstd::utf8::char_u32_cast(b@[i as int], b@[i as int] as u32);
            }
            if (a[i] as u32) < (b[i] as u32) {
                proof {
                    lemma_digits_first_difference(a@, b@, i as int);
                }
                return Rel::Below;
            } else {
                proof {
                    lemma_digits_first_difference(b@, a@, i as int);
                }
                return Rel::Above;
            }
        }
        assert(a@.take(i + 1) =~= a@.take(i as int).push(a@[i as int]));
        assert(b@.take(i + 1) =~= b@.take(i as int).push(b@[i as int]));
        i += 1;
    }
    assert(a@ =~= a@.take(i as int));
    assert(b@ =~= b@.take(i as int));
    Rel::Same
}

fn push_zeros(v: &mut Vec<char>, n: usize)
    ensures
        final(v)@ == old(v)@ + Seq::new(n as nat, |i: int| '0'),
{
    let mut k: usize = 0;
    while k < n
        invariant
            k <= n,
            v@ == old(v)@ + Seq::new(k as nat, |i: int| '0'),
        decreases n - k,
    {
        v.push('0');
        assert(old(v)@ + Seq::new((k + 1) as nat, |i: int| '0') =~= old(v)@ + Seq::new(
            k as nat,
            |i: int| '0',
        ) + seq!['0']);
        k += 1;
    }
}

fn push_all(v: &mut Vec<char>, w: &Vec<char>)
    ensures
        final(v)@ == old(v)@ + w@,
{
    let mut k: usize = 0;
    while k < w.len()
        invariant
            k <= w@.len(),
            v@ == old(v)@ + w@.take(k as int),
        decreases w.len() - k,
    {
        v.push(w[k]);
        assert(w@.take(k + 1) =~= w@.take(k as int).push(w@[k as int]));
        assert(old(v)@ + w@.take(k + 1) =~= old(v)@ + w@.take(k as int) + seq![w@[k as int]]);
        k += 1;
    }
    assert(w@.take(w@.len() as int) =~= w@);
}

fn zeros(n: usize) -> (r: Vec<char>)
    ensures
        r@ == Seq::new(n as nat, |i: int| '0'),
        all_digits(r@),
        digits_val(r@) == 0,
{
    let mut r: Vec<char> = Vec::new();
    push_zeros(&mut r, n);
    proof {
        lemma_zeros(n as nat);
        assert(r@ =~= Seq::new(n as nat, |i: int| '0'));
    }
    r
}

/// Index of the first `c` in `s`, if any.
pub fn find_char(s: &Vec<char>, c: char) -> (r: Option<usize>)
    ensures
        r matches Some(k) ==> find_char_from(s@, c, 0) == Some(k as int) && k < s@.len(),
        r is None ==> find_char_from(s@, c, 0) is None,
{
    let mut i: usize = 0;
    while i < s.len()
        invariant
            i <= s@.len(),
            find_char_from(s@, c, 0) == find_char_from(s@, c, i as int),
        decreases s.len() - i,
    {
        if s[i] == c {
            return Some(i);
        }
        i += 1;
    }
    None
}

fn all_digits_exec(s: &Vec<char>) -> (r: bool)
    ensures
        r == all_digits(s@),
{
    let mut i: usize = 0;
    while i < s.len()
        invariant
            i <= s@.len(),
            forall|k: int| 0 <= k < i ==> is_digit(#[trigger] s@[k]),
        decreases s.len() - i,
    {
        if !('0' <= s[i] && s[i] <= '9') {
            return false;
        }
        i += 1;
    }
    true
}

fn slice_vec(s: &Vec<char>, from: usize, to: usize) -> (r: Vec<char>)
    requires
        from <= to <= s@.len(),
    ensures
        r@ == s@.subrange(from as int, to as int),
{
    let mut r: Vec<char> = Vec::new();
    let mut i = from;
    while i < to
        invariant
            from <= i <= to <= s@.len(),
            r@ == s@.subrange(from as int, i as int),
        decreases to - i,
    {
        r.push(s[i]);
        assert(s@.subrange(from as int, i + 1) =~= s@.subrange(from as int, i as int).push(
            s@[i as int],
        ));
        i += 1;
    }
    r
}

// ------------------------------------------------------------------ ordering lemmas

proof fn lemma_pow10_add(a: nat, b: nat)
    ensures
        pow10(a + b) == pow10(a) * pow10(b),
    decreases b,
{
    if b > 0 {
        lemma_pow10_add(a, (b - 1) as nat);
        assert((a + b - 1) as nat == a + (b - 1) as nat);
        assert(pow10(a + b) == 10 * pow10((a + b - 1) as nat));
        assert(pow10(b) == 10 * pow10((b - 1) as nat));
        let x = pow10(a);
        let y = pow10((b - 1) as nat);
        assert(pow10(a + (b - 1) as nat) == x * y);
        assert(pow10(a + b) == 10 * (x * y));
        assert(10 * (x * y) == x * (10 * y)) by (nonlinear_arith);
    } else {
        assert(pow10(0) == 1);
        assert(a + b == a);
    }
}

proof fn lemma_pow10_mono(a: nat, b: nat)
    requires
        a <= b,
    ensures
        pow10(a) <= pow10(b),
    decreases b,
{
    if a < b {
        lemma_pow10_mono(a, (b - 1) as nat);
        lemma_pow10_pos((b - 1) as nat);
    }
}

/// A digit string without a leading zero is at least `10^(len - 1)`.
proof fn lemma_leading(s: Seq<char>)
    requires
        s.len() > 0,
        all_digits(s),
        s[0] != '0',
    ensures
        digits_val(s) >= pow10((s.len() - 1) as nat),
        digits_val(s) >= 1,
{
    let head = s.take(1);
    let rest = s.skip(1);
    assert(s =~= head + rest);
    lemma_digits_concat(head, rest);
    assert(head.drop_last() =~= Seq::<char>::empty());
    assert(head.last() == s[0]);
    assert(digits_val(Seq::<char>::empty()) == 0);
    assert(is_digit(s[0]));
    assert(digits_val(head) == digit_val(s[0]));
    assert(digit_val(s[0]) >= 1);
    lemma_pow10_pos(rest.len());
    let p = pow10(rest.len());
    let h = digits_val(head);
    assert(h * p >= p) by (nonlinear_arith)
        requires
            h >= 1,
    ;
}

/// Leading zeros do not change the value of a digit string.
proof fn lemma_strip(d: Seq<char>, k: int)
    requires
        0 <= k <= d.len(),
        forall|i: int| 0 <= i < k ==> d[i] == '0',
    ensures
        digits_val(d) == digits_val(d.skip(k)),
{
    let z = d.take(k);
    assert(z =~= Seq::new(k as nat, |i: int| '0'));
    lemma_zeros(k as nat);
    assert(d =~= z + d.skip(k));
    lemma_digits_concat(z, d.skip(k));
}

/// A number with fewer places comes first: `a * 10^u` has
/// `a.len() + u` places.
proof fn lemma_places(a: Seq<char>, u: nat, b: Seq<char>, w: nat)
    requires
        a.len() > 0,
        b.len() > 0,
        all_digits(a),
        all_digits(b),
        b[0] != '0',
        a.len() + u < b.len() + w,
    ensures
        digits_val(a) * pow10(u) < digits_val(b) * pow10(w),
{
    lemma_digits_bound(a);
    lemma_leading(b);
    lemma_pow10_add(a.len(), u);
    lemma_pow10_add((b.len() - 1) as nat, w);
    lemma_pow10_mono(a.len() + u, ((b.len() - 1) as nat + w) as nat);
    lemma_pow10_pos(u);
    lemma_pow10_pos(w);
    let x = digits_val(a);
    let pa = pow10(a.len());
    let pu = pow10(u);
    let y = digits_val(b);
    let pb = pow10((b.len() - 1) as nat);
    let pw = pow10(w);
    assert(x * pu < pa * pu) by (nonlinear_arith)
        requires
            x < pa,
            pu >= 1,
    ;
    assert(pb * pw <= y * pw) by (nonlinear_arith)
        requires
            pb <= y,
            pw >= 1,
    ;
}

// ------------------------------------------------------------------ exec: numerals

/// The number of leading zeros of a digit string.
fn leading_zeros(d: &Vec<char>) -> (k: usize)
    ensures
        k <= d@.len(),
        forall|i: int| 0 <= i < k ==> d@[i] == '0',
        k < d@.len() ==> d@[k as int] != '0',
{
    let mut k: usize = 0;
    while k < d.len() && d[k] == '0'
        invariant
            k <= d@.len(),
            forall|i: int| 0 <= i < k ==> d@[i] == '0',
        decreases d.len() - k,
    {
        k += 1;
    }
    k
}

/// Orders `a * 10^(ea - m)` and `b * 10^(eb - m)`, `m` the lesser exponent,
/// for digit strings without leading zeros.
fn magnitude_rel(a: &Vec<char>, ea: i128, b: &Vec<char>, eb: i128) -> (r: Rel)
    requires
        a@.len() > 0,
        b@.len() > 0,
        all_digits(a@),
        all_digits(b@),
        a@[0] != '0',
        b@[0] != '0',
        -EXPONENT_LIMIT - usize::MAX <= ea <= EXPONENT_LIMIT,
        -EXPONENT_LIMIT - usize::MAX <= eb <= EXPONENT_LIMIT,
    ensures
        ({
            let m = min_int(ea as int, eb as int);
            let x = digits_val(a@) * pow10((ea - m) as nat);
            let y = digits_val(b@) * pow10((eb - m) as nat);
            &&& r == Rel::Below ==> x < y
            &&& r == Rel::Above ==> y < x
            &&& r == Rel::Same ==> x == y
        }),
{
    let ghost m = min_int(ea as int, eb as int);
    let pa: i128 = ea + a.len() as i128;
    let pb: i128 = eb + b.len() as i128;
    if pa < pb {
        proof {
            lemma_places(a@, (ea - m) as nat, b@, (eb - m) as nat);
        }
        return Rel::Below;
    }
    if pb < pa {
        proof {
            lemma_places(b@, (eb - m) as nat, a@, (ea - m) as nat);
        }
        return Rel::Above;
    }
    let mut x: Vec<char> = Vec::new();
    push_all(&mut x, a);
    let mut y: Vec<char> = Vec::new();
    push_all(&mut y, b);
    assert(x@ =~= a@);
    assert(y@ =~= b@);
    assert(pow10(0) == 1);
    if ea >= eb {
        let k = (ea - eb) as usize;
        push_zeros(&mut x, k);
        proof {
            let z = Seq::new(k as nat, |i: int| '0');
            lemma_zeros(k as nat);
            lemma_all_digits_concat(a@, z);
            lemma_digits_concat(a@, z);
            assert(x@ == a@ + z);
            assert(digits_val(x@) == digits_val(a@) * pow10(k as nat));
            assert(m == eb);
            assert(digits_val(b@) * pow10(0) == digits_val(b@));
        }
        let r = compare_digits(&x, &y);
        r
    } else {
        let k = (eb - ea) as usize;
        push_zeros(&mut y, k);
        proof {
            let z = Seq::new(k as nat, |i: int| '0');
            lemma_zeros(k as nat);
            lemma_all_digits_concat(b@, z);
            lemma_digits_concat(b@, z);
            assert(y@ == b@ + z);
            assert(digits_val(y@) == digits_val(b@) * pow10(k as nat));
            assert(m == ea);
            assert(digits_val(a@) * pow10(0) == digits_val(a@));
        }
        let r = compare_digits(&x, &y);
        r
    }
}

/// `a < b` as numbers, for finite numerals.
fn finite_less(na: bool, da: &Vec<char>, ea: i128, nb: bool, db: &Vec<char>, eb: i128) -> (r: bool)
    requires
        wf(NumeralView::Finite { negative: na, digits: da@, exponent: ea as int }),
        wf(NumeralView::Finite { negative: nb, digits: db@, exponent: eb as int }),
    ensures
        r == num_lt(
            NumeralView::Finite { negative: na, digits: da@, exponent: ea as int },
            NumeralView::Finite { negative: nb, digits: db@, exponent: eb as int },
        ),
{
    let ghost m = min_int(ea as int, eb as int);
    let ghost ua = (ea - m) as nat;
    let ghost ub = (eb - m) as nat;
    let ka = leading_zeros(da);
    let kb = leading_zeros(db);
    let za = ka == da.len();
    let zb = kb == db.len();
    let sa = slice_vec(da, ka, da.len());
    let sb = slice_vec(db, kb, db.len());
    proof {
        assert(sa@ =~= da@.skip(ka as int));
        assert(sb@ =~= db@.skip(kb as int));
        lemma_strip(da@, ka as int);
        lemma_strip(db@, kb as int);
        lemma_pow10_pos(ua);
        lemma_pow10_pos(ub);
        assert(all_digits(sa@));
        assert(all_digits(sb@));
        if !za {
            lemma_leading(sa@);
        } else {
            assert(sa@ =~= Seq::<char>::empty());
        }
        if !zb {
            lemma_leading(sb@);
        } else {
            assert(sb@ =~= Seq::<char>::empty());
        }
        let x = digits_val(da@);
        let y = digits_val(db@);
        let px = pow10(ua);
        let py = pow10(ub);
        if !za {
            assert(x * px >= 1) by (nonlinear_arith)
                requires
                    x >= 1,
                    px >= 1,
            ;
        }
        if !zb {
            assert(y * py >= 1) by (nonlinear_arith)
                requires
                    y >= 1,
                    py >= 1,
            ;
        }
    }
    if za && zb {
        return false;
    }
    if za {
        return !nb;
    }
    if zb {
        return na;
    }
    if na != nb {
        return na;
    }
    let rel = magnitude_rel(&sa, ea, &sb, eb);
    if na {
        rel == Rel::Above
    } else {
        rel == Rel::Below
    }
}

/// `a < b` as `f64` comparison orders the numerals (exactly, for finite
/// ones).
pub fn num_less(a: &Numeral, b: &Numeral) -> (r: bool)
    requires
        wf(a@),
        wf(b@),
    ensures
        r == num_lt(a@, b@),
{
    match (a, b) {
        (Numeral::NotANumber, _) => false,
        (_, Numeral::NotANumber) => false,
        (Numeral::Infinite { negative: na }, Numeral::Infinite { negative: nb }) => *na && !*nb,
        (Numeral::Infinite { negative: na }, Numeral::Finite { .. }) => *na,
        (Numeral::Finite { .. }, Numeral::Infinite { negative: nb }) => !*nb,
        (
            Numeral::Finite { negative: na, digits: da, exponent: ea },
            Numeral::Finite { negative: nb, digits: db, exponent: eb },
        ) => finite_less(*na, da, *ea, *nb, db, *eb),
    }
}

/// Index of the first exponent mark in `s`, if any.
fn find_exp(s: &Vec<char>) -> (r: Option<usize>)
    ensures
        r matches Some(k) ==> find_exp_from(s@, 0) == Some(k as int) && k < s@.len(),
        r is None ==> find_exp_from(s@, 0) is None,
{
    let mut i: usize = 0;
    while i < s.len()
        invariant
            i <= s@.len(),
            find_exp_from(s@, 0) == find_exp_from(s@, i as int),
        decreases s.len() - i,
    {
        if s[i] == 'e' || s[i] == 'E' {
            return Some(i);
        }
        i += 1;
    }
    None
}

/// The value of a digit string, or the exponent limit when it is larger.
fn exponent_magnitude(d: &Vec<char>) -> (r: i128)
    requires
        all_digits(d@),
    ensures
        r == (if digits_val(d@) > EXPONENT_LIMIT { EXPONENT_LIMIT as int } else { digits_val(d@) as int }),
{
    let mut v: i128 = 0;
    let mut i: usize = 0;
    while i < d.len()
        invariant
            i <= d@.len(),
            all_digits(d@),
            0 <= v <= EXPONENT_LIMIT,
            v == (if digits_val(d@.take(i as int)) > EXPONENT_LIMIT { EXPONENT_LIMIT as int } else { digits_val(
                d@.take(i as int),
            ) as int }),
        decreases d.len() - i,
    {
        let c = d[i];
        proof {
            vstd::utf8::char_u32_cast(c, c as u32);
            vstd::utf8::char_u32_cast('0', '0' as u32);
            assert(is_digit(d@[i as int]));
            assert(d@.take(i + 1).drop_last() =~= d@.take(i as int));
            assert(d@.take(i + 1).last() == c);
        }
        let digit: i128 = ((c as u32) - ('0' as u32)) as i128;
        assert(digit == digit_val(c));
        if v < EXPONENT_LIMIT {
            let next = v * 10 + digit;
            v = if next > EXPONENT_LIMIT { EXPONENT_LIMIT } else { next };
        }
        i += 1;
    }
    assert(d@.take(d@.len() as int) =~= d@);
    v
}

/// The exponent after the mark, clamped to the limit.
fn exponent_exec(x: &Vec<char>) -> (r: Option<i128>)
    ensures
        match (r, parse_exponent(x@)) {
            (Some(v), Some(e)) => v as int == clamp_exponent(e),
            (None, None) => true,
            _ => false,
        },
{
    let neg_e = x.len() > 0 && x[0] == '-';
    let d = if x.len() > 0 && (x[0] == '-' || x[0] == '+') {
        slice_vec(x, 1, x.len())
    } else {
        slice_vec(x, 0, x.len())
    };
    proof {
        if x@.len() > 0 {
            assert(x@.subrange(1, x@.len() as int) =~= x@.drop_first());
        }
        assert(x@.subrange(0, x@.len() as int) =~= x@);
    }
    if !(d.len() > 0 && all_digits_exec(&d)) {
        return None;
    }
    let v = exponent_magnitude(&d);
    if neg_e {
        Some(-v)
    } else {
        Some(v)
    }
}

/// The digits before and after the point of a mantissa.
fn mantissa_exec(mant: &Vec<char>) -> (r: Option<(Vec<char>, Vec<char>)>)
    ensures
        match (r, parse_mantissa(mant@)) {
            (Some((i, f)), Some((ip, fp))) => i@ == ip && f@ == fp,
            (None, None) => true,
            _ => false,
        },
{
    let found = find_char(mant, '.');
    let n = mant.len();
    let (ip, fp) = match found {
        Some(k) => {
            let after = k + 1;
            (slice_vec(mant, 0, k), slice_vec(mant, after, n))
        },
        None => (slice_vec(mant, 0, mant.len()), Vec::new()),
    };
    proof {
        match find_char_from(mant@, '.', 0) {
            Some(k) => {
                assert(ip@ =~= mant@.take(k));
                assert(fp@ =~= mant@.skip(k + 1));
            },
            None => {
                assert(ip@ =~= mant@);
                assert(fp@ =~= Seq::<char>::empty());
            },
        }
    }
    if all_digits_exec(&ip) && all_digits_exec(&fp) && ip.len() + fp.len() > 0 {
        Some((ip, fp))
    } else {
        None
    }
}

/// A finite numeral from its body, after the special words.
fn finite_exec(neg: bool, body: &Vec<char>) -> (r: Option<Numeral>)
    ensures
        ({
            let (mant, exp) = match find_exp_from(body@, 0) {
                Some(k) => (body@.take(k), Some(body@.skip(k + 1))),
                None => (body@, None),
            };
            let e = match exp {
                None => Some(0int),
                Some(x) => parse_exponent(x),
            };
            match (r, parse_mantissa(mant), e) {
                (Some(n), Some((ip, fp)), Some(e)) => n@ == (NumeralView::Finite {
                    negative: neg,
                    digits: ip + fp,
                    exponent: clamp_exponent(e) - fp.len(),
                }) && wf(n@),
                (None, None, _) => true,
                (None, _, None) => true,
                _ => false,
            }
        }),
{
    let found = find_exp(body);
    let n = body.len();
    let (mant, exp) = match found {
        Some(k) => {
            let after = k + 1;
            (slice_vec(body, 0, k), Some(slice_vec(body, after, n)))
        },
        None => (slice_vec(body, 0, body.len()), None),
    };
    proof {
        match find_exp_from(body@, 0) {
            Some(k) => {
                assert(mant@ =~= body@.take(k));
                assert(exp.unwrap()@ =~= body@.skip(k + 1));
            },
            None => {
                assert(mant@ =~= body@);
            },
        }
    }
    let e: i128 = match &exp {
        None => 0,
        Some(x) => match exponent_exec(x) {
            None => {
                return None;
            },
            Some(v) => v,
        },
    };
    let (ip, fp) = match mantissa_exec(&mant) {
        None => {
            return None;
        },
        Some(p) => p,
    };
    let mut digits: Vec<char> = Vec::new();
    push_all(&mut digits, &ip);
    push_all(&mut digits, &fp);
    proof {
        lemma_all_digits_concat(ip@, fp@);
        assert(digits@ =~= ip@ + fp@);
    }
    let exponent: i128 = e - fp.len() as i128;
    Some(Numeral::Finite { negative: neg, digits, exponent })
}

/// Parses a numeral in the grammar `f64` parsing accepts.
pub fn parse(s: &Vec<char>) -> (r: Option<Numeral>)
    ensures
        r matches Some(n) ==> parse_numeral(s@) == Some(n@) && wf(n@),
        r is None ==> parse_numeral(s@) is None,
{
    let neg = s.len() > 0 && s[0] == '-';
    let body = if s.len() > 0 && (s[0] == '-' || s[0] == '+') {
        slice_vec(s, 1, s.len())
    } else {
        slice_vec(s, 0, s.len())
    };
    proof {
        if s@.len() > 0 {
            assert(s@.subrange(1, s@.len() as int) =~= s@.drop_first());
        }
        assert(s@.subrange(0, s@.len() as int) =~= s@);
    }
    let word = lower_chars(&body);
    if chars_eq(&word, &chars_of("inf")) || chars_eq(&word, &chars_of("infinity")) {
        return Some(Numeral::Infinite { negative: neg });
    }
    if chars_eq(&word, &chars_of("nan")) {
        return Some(Numeral::NotANumber);
    }
    finite_exec(neg, &body)
}

} // verus!
