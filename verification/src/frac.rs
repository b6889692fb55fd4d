//! Exact fractions.
//!
//! The letterbox scale and the points it maps are ratios of integers, so they
//! are kept exact: `Frac` is the executable fraction (a pair of `i64`), `Rat`
//! its mathematical counterpart over unbounded integers.  Two fractions mean
//! the same number when they agree under cross multiplication (`rat_eqv`);
//! no normalisation is ever needed.

use vstd::prelude::*;

verus! {

/// A mathematical fraction `n / d`, for specifications only.
pub struct Rat {
    pub n: int,
    pub d: int,
}

/// A fraction is well formed when its denominator is positive.
pub open spec fn rat_wf(a: Rat) -> bool {
    a.d > 0
}

/// `a` and `b` denote the same number: `a.n / a.d == b.n / b.d`, stated by
/// cross multiplication.
pub open spec fn rat_eqv(a: Rat, b: Rat) -> bool {
    a.n * b.d == b.n * a.d
}

/// The integer `i` as a fraction.
pub open spec fn rat_of_int(i: int) -> Rat {
    Rat { n: i, d: 1 }
}

pub open spec fn rat_add(a: Rat, b: Rat) -> Rat {
    Rat { n: a.n * b.d + b.n * a.d, d: a.d * b.d }
}

pub open spec fn rat_sub(a: Rat, b: Rat) -> Rat {
    Rat { n: a.n * b.d - b.n * a.d, d: a.d * b.d }
}

pub open spec fn rat_mul(a: Rat, b: Rat) -> Rat {
    Rat { n: a.n * b.n, d: a.d * b.d }
}

/// Division; meaningful only when `b.n > 0`, which keeps the result well
/// formed.
pub open spec fn rat_div(a: Rat, b: Rat) -> Rat {
    Rat { n: a.n * b.d, d: a.d * b.n }
}

/// `a < i` over a well-formed fraction.
pub open spec fn rat_lt_int(a: Rat, i: int) -> bool {
    a.n < i * a.d
}

/// `a > i` over a well-formed fraction.
pub open spec fn rat_gt_int(a: Rat, i: int) -> bool {
    a.n > i * a.d
}

/// Clamp a fraction into the integer interval `[lo, hi]`.
pub open spec fn rat_clamp_int(a: Rat, lo: int, hi: int) -> Rat {
    if rat_lt_int(a, lo) {
        rat_of_int(lo)
    } else if rat_gt_int(a, hi) {
        rat_of_int(hi)
    } else {
        a
    }
}

/// The smaller of two well-formed fractions; `a` on a tie.
pub open spec fn rat_min(a: Rat, b: Rat) -> Rat {
    if a.n * b.d <= b.n * a.d {
        a
    } else {
        b
    }
}

/// Floor of a well-formed fraction (Euclidean division by a positive
/// denominator rounds toward negative infinity).
pub open spec fn rat_floor(a: Rat) -> int {
    a.n / a.d
}

/// An executable fraction; the invariant `den > 0` is carried by the
/// functions that build and consume it.
#[derive(Clone, Copy, PartialEq, Eq, Structural, Debug)]
pub struct Frac {
    pub num: i64,
    pub den: i64,
}

impl View for Frac {
    type V = Rat;

    open spec fn view(&self) -> Rat {
        Rat { n: self.num as int, d: self.den as int }
    }
}

impl Frac {
    pub open spec fn wf(self) -> bool {
        self.den > 0
    }
}

/// Equivalent fractions compare the same way against any integer.
pub proof fn lemma_eqv_cmp_int(a: Rat, b: Rat, k: int) by (nonlinear_arith)
    requires
        rat_wf(a),
        rat_wf(b),
        rat_eqv(a, b),
    ensures
        rat_lt_int(a, k) == rat_lt_int(b, k),
        rat_gt_int(a, k) == rat_gt_int(b, k),
{
}

/// Equivalence of fractions is preserved by clamping into `[lo, hi]`.
pub proof fn lemma_eqv_clamp(a: Rat, b: Rat, lo: int, hi: int)
    requires
        rat_wf(a),
        rat_wf(b),
        rat_eqv(a, b),
    ensures
        rat_eqv(rat_clamp_int(a, lo, hi), rat_clamp_int(b, lo, hi)),
{
    lemma_eqv_cmp_int(a, b, lo);
    lemma_eqv_cmp_int(a, b, hi);
}

/// A fraction lying in `[lo, hi]` has its floor in `[lo, hi]` too.
pub proof fn lemma_floor_bounds(a: Rat, lo: int, hi: int)
    requires
        rat_wf(a),
        !rat_lt_int(a, lo),
        !rat_gt_int(a, hi),
    ensures
        lo <= rat_floor(a) <= hi,
{
    vstd::arithmetic::div_mod::lemma_div_is_ordered(lo * a.d, a.n, a.d);
    vstd::arithmetic::div_mod::lemma_div_is_ordered(a.n, hi * a.d, a.d);
    vstd::arithmetic::div_mod::lemma_div_multiples_vanish(lo, a.d);
    vstd::arithmetic::div_mod::lemma_div_multiples_vanish(hi, a.d);
    assert(lo * a.d == a.d * lo) by (nonlinear_arith);
    assert(hi * a.d == a.d * hi) by (nonlinear_arith);
}

/// If `b <= k`, the smaller of `a` and `b` is at most `k` as well.
pub proof fn lemma_min_le_int(a: Rat, b: Rat, k: int)
    requires
        rat_wf(a),
        rat_wf(b),
        !rat_gt_int(b, k),
    ensures
        !rat_gt_int(rat_min(a, b), k),
{
    if a.n * b.d <= b.n * a.d {
        assert(!(a.n > k * a.d)) by (nonlinear_arith)
            requires
                a.n * b.d <= b.n * a.d,
                b.n <= k * b.d,
                a.d > 0,
                b.d > 0,
        ;
    }
}

/// Mapping a point through an affine transform (`scale` then `offset`) and
/// back recovers the point exactly, for every scale/offset combination with a
/// positive scale.
pub proof fn lemma_affine_round_trip(q: Rat, s: Rat, o: Rat)
    requires
        rat_wf(q),
        rat_wf(s),
        rat_wf(o),
        s.n > 0,
    ensures
        rat_eqv(rat_div(rat_sub(rat_add(rat_mul(q, s), o), o), s), q),
{
    let fwd = rat_add(rat_mul(q, s), o);
    let diff = rat_sub(fwd, o);
    let back = rat_div(diff, s);
    assert(diff.n == (q.n * s.n * o.d + o.n * (q.d * s.d)) * o.d - o.n * ((q.d * s.d) * o.d));
    assert(diff.n == q.n * s.n * (o.d * o.d)) by (nonlinear_arith)
        requires
            diff.n == (q.n * s.n * o.d + o.n * (q.d * s.d)) * o.d - o.n * ((q.d * s.d) * o.d),
    ;
    assert(diff.d == (q.d * s.d) * o.d * o.d);
    assert(back.n == q.n * s.n * (o.d * o.d) * s.d && back.d == (q.d * s.d) * o.d * o.d * s.n)
        by (nonlinear_arith)
        requires
            back.n == diff.n * s.d,
            back.d == diff.d * s.n,
            diff.n == q.n * s.n * (o.d * o.d),
            diff.d == (q.d * s.d) * o.d * o.d,
    ;
    assert(back.n * q.d == q.n * back.d) by (nonlinear_arith)
        requires
            back.n == q.n * s.n * (o.d * o.d) * s.d,
            back.d == (q.d * s.d) * o.d * o.d * s.n,
    ;
}

} // verus!
