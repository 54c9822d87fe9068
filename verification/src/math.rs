//! Fixed-point scalar arithmetic: fractions in thousandths, truncating
//! scaling, repeated damping, clamping, and integer square roots.

use vstd::arithmetic::div_mod::{
    lemma_div_is_ordered, lemma_div_multiples_vanish, lemma_div_pos_is_pos,
    lemma_multiply_divide_lt,
};
use vstd::arithmetic::mul::{lemma_mul_inequality, lemma_mul_upper_bound};
use vstd::prelude::*;

verus! {

/// Denominator of every fixed-point fraction in this crate: a friction of
/// `250` means one quarter, a bounce factor of `1000` is perfectly elastic.
pub const SCALE: i64 = 1000;

/// Largest magnitude `mul_frac` accepts for the scaled value.
pub const MAG_LIMIT: i64 = 90_000_000_000_000;

/// Largest fraction numerator `mul_frac` accepts (a factor of one hundred).
pub const FACTOR_LIMIT: i64 = 100_000;

/// Magnitude (absolute value) of a mathematical integer.
pub open spec fn mag(v: int) -> int {
    if v < 0 {
        -v
    } else {
        v
    }
}

/// `v` scaled by the fraction `num / SCALE`, rounded toward zero.
pub open spec fn scale_by(v: int, num: int) -> int {
    if v >= 0 {
        (v * num) / (SCALE as int)
    } else {
        -((-v * num) / (SCALE as int))
    }
}

/// `v` pulled into the interval `[lo, hi]`.
pub open spec fn clamp_to(v: int, lo: int, hi: int) -> int {
    if v < lo {
        lo
    } else if v > hi {
        hi
    } else {
        v
    }
}

/// `v` after `n` quanta of damping, each quantum keeping the fraction
/// `keep / SCALE` of the value.
pub open spec fn damp_n(v: int, keep: int, n: nat) -> int
    decreases n,
{
    if n == 0 {
        v
    } else {
        scale_by(damp_n(v, keep, (n - 1) as nat), keep)
    }
}

/// Scaling by a fraction of at most one never grows the magnitude.
pub proof fn lemma_scale_by_shrinks(v: int, num: int)
    requires
        0 <= num <= SCALE,
    ensures
        mag(scale_by(v, num)) <= mag(v),
{
    let s = SCALE as int;
    if v >= 0 {
        assert(0 <= v * num) by (nonlinear_arith)
            requires
                v >= 0,
                num >= 0,
        ;
        lemma_mul_inequality(num, s, v);
        assert(v * num == num * v) by (nonlinear_arith);
        assert(v * s == s * v) by (nonlinear_arith);
        lemma_div_is_ordered(v * num, v * s, s);
        lemma_div_multiples_vanish(v, s);
        lemma_div_pos_is_pos(v * num, s);
    } else {
        assert(0 <= -v * num) by (nonlinear_arith)
            requires
                v < 0,
                num >= 0,
        ;
        lemma_mul_inequality(num, s, -v);
        assert(-v * num == num * -v) by (nonlinear_arith);
        assert(-v * s == s * -v) by (nonlinear_arith);
        lemma_div_is_ordered(-v * num, -v * s, s);
        lemma_div_multiples_vanish(-v, s);
        lemma_div_pos_is_pos(-v * num, s);
    }
}

/// Scaling a nonzero value by a fraction strictly below one strictly
/// shrinks its magnitude.
pub proof fn lemma_scale_by_strict(v: int, num: int)
    requires
        0 <= num < SCALE,
        v != 0,
    ensures
        mag(scale_by(v, num)) < mag(v),
{
    let s = SCALE as int;
    if v >= 0 {
        assert(v * num < s * v) by (nonlinear_arith)
            requires
                v > 0,
                0 <= num < s,
        ;
        lemma_multiply_divide_lt(v * num, s, v);
        lemma_div_pos_is_pos(v * num, s);
    } else {
        assert(-v * num < s * -v) by (nonlinear_arith)
            requires
                v < 0,
                0 <= num < s,
        ;
        lemma_multiply_divide_lt(-v * num, s, -v);
        lemma_div_pos_is_pos(-v * num, s);
    }
}

/// Damping never grows the magnitude, however many quanta elapse.
pub proof fn lemma_damp_n_bound(v: int, keep: int, n: nat)
    requires
        0 <= keep <= SCALE,
    ensures
        mag(damp_n(v, keep, n)) <= mag(v),
    decreases n,
{
    if n > 0 {
        lemma_damp_n_bound(v, keep, (n - 1) as nat);
        lemma_scale_by_shrinks(damp_n(v, keep, (n - 1) as nat), keep);
    }
}

/// Damping over a span of quanta equals damping over any two pieces of the
/// span in turn: the decay depends only on the total elapsed time, never on
/// how that time is sliced.
pub proof fn lemma_damp_n_split(v: int, keep: int, m: nat, n: nat)
    ensures
        damp_n(v, keep, m + n) == damp_n(damp_n(v, keep, m), keep, n),
    decreases n,
{
    if n > 0 {
        lemma_damp_n_split(v, keep, m, (n - 1) as nat);
        assert(m + n - 1 == m + (n - 1));
    }
}

/// A nonzero value strictly loses magnitude after at least one quantum of
/// damping whenever the kept fraction is strictly below one.
pub proof fn lemma_damp_n_strict(v: int, keep: int, n: nat)
    requires
        0 <= keep < SCALE,
        v != 0,
        n >= 1,
    ensures
        mag(damp_n(v, keep, n)) < mag(v),
    decreases n,
{
    let prev = damp_n(v, keep, (n - 1) as nat);
    assert(damp_n(v, keep, n) == scale_by(prev, keep));
    if n == 1 {
        assert(prev == v);
        lemma_scale_by_strict(v, keep);
    } else {
        lemma_damp_n_strict(v, keep, (n - 1) as nat);
        if prev == 0 {
            assert(scale_by(0, keep) == 0);
        } else {
            lemma_scale_by_shrinks(prev, keep);
        }
    }
}

/// Multiplies `v` by the fraction `num / SCALE`, rounding toward zero.
pub fn mul_frac(v: i64, num: i64) -> (r: i64)
    requires
        0 <= num <= FACTOR_LIMIT,
        mag(v as int) <= MAG_LIMIT,
    ensures
        r as int == scale_by(v as int, num as int),
        mag(r as int) <= (MAG_LIMIT as int) * (FACTOR_LIMIT as int) / (SCALE as int),
{
    proof {
        assert(mag(v as int) * num <= MAG_LIMIT * FACTOR_LIMIT) by {
            lemma_mul_upper_bound(mag(v as int), MAG_LIMIT as int, num as int, FACTOR_LIMIT as int);
        }
        lemma_div_pos_is_pos(mag(v as int) * (num as int), SCALE as int);
        lemma_div_is_ordered(
            mag(v as int) * (num as int),
            (MAG_LIMIT * FACTOR_LIMIT) as int,
            SCALE as int,
        );
    }
    if v >= 0 {
        (((v as u64) * (num as u64)) / (SCALE as u64)) as i64
    } else {
        let q = (((-v) as u64) * (num as u64)) / (SCALE as u64);
        -(q as i64)
    }
}

/// Pulls `v` into the interval `[lo, hi]`.
pub fn clamp_value(v: i64, lo: i64, hi: i64) -> (r: i64)
    requires
        lo <= hi,
    ensures
        r as int == clamp_to(v as int, lo as int, hi as int),
{
    if v < lo {
        lo
    } else if v > hi {
        hi
    } else {
        v
    }
}

/// Applies `quanta` quanta of damping to `v`, each keeping `keep / SCALE`.
pub fn damp_value(v: i64, keep: i64, quanta: i64) -> (r: i64)
    requires
        0 <= keep <= SCALE,
        0 <= quanta,
        mag(v as int) <= MAG_LIMIT,
    ensures
        r as int == damp_n(v as int, keep as int, quanta as nat),
        mag(r as int) <= mag(v as int),
{
    let mut cur = v;
    let mut i: i64 = 0;
    while i < quanta
        invariant
            0 <= i <= quanta,
            0 <= keep <= SCALE,
            mag(v as int) <= MAG_LIMIT,
            cur as int == damp_n(v as int, keep as int, i as nat),
            mag(cur as int) <= mag(v as int),
        decreases quanta - i,
    {
        proof {
            lemma_scale_by_shrinks(cur as int, keep as int);
        }
        cur = mul_frac(cur, keep);
        i = i + 1;
    }
    cur
}

/// The floor of the square root of a natural number.
pub open spec fn sqrt_floor(n: nat) -> nat
    decreases n,
{
    if n == 0 {
        0
    } else {
        let r = sqrt_floor((n - 1) as nat);
        if (r + 1) * (r + 1) <= n {
            r + 1
        } else {
            r
        }
    }
}

/// `sqrt_floor(n)` is the unique value whose square brackets `n`.
pub proof fn lemma_sqrt_floor_bounds(n: nat)
    ensures
        sqrt_floor(n) * sqrt_floor(n) <= n,
        n < (sqrt_floor(n) + 1) * (sqrt_floor(n) + 1),
    decreases n,
{
    let s = sqrt_floor(n);
    if n == 0 {
        assert(s == 0);
        assert(n < (s + 1) * (s + 1)) by (nonlinear_arith)
            requires
                s == 0,
                n == 0,
        ;
    } else {
        let r = sqrt_floor((n - 1) as nat);
        lemma_sqrt_floor_bounds((n - 1) as nat);
        if (r + 1) * (r + 1) <= n {
            assert(s == r + 1);
            assert(s * s <= n) by (nonlinear_arith)
                requires
                    s == r + 1,
                    (r + 1) * (r + 1) <= n,
            ;
            assert(n < (s + 1) * (s + 1)) by (nonlinear_arith)
                requires
                    s == r + 1,
                    n <= (r + 1) * (r + 1),
            ;
        } else {
            assert(s == r);
            assert(s * s <= n) by (nonlinear_arith)
                requires
                    s == r,
                    r * r <= (n - 1) as nat,
                    n >= 1,
            ;
            assert(n < (s + 1) * (s + 1)) by (nonlinear_arith)
                requires
                    s == r,
                    n < (r + 1) * (r + 1),
            ;
        }
    }
}

/// Any value whose square brackets `n` is `sqrt_floor(n)`.
pub proof fn lemma_sqrt_floor_unique(n: nat, r: nat)
    requires
        r * r <= n,
        n < (r + 1) * (r + 1),
    ensures
        r == sqrt_floor(n),
{
    lemma_sqrt_floor_bounds(n);
    let s = sqrt_floor(n);
    assert(r == s) by (nonlinear_arith)
        requires
            r * r <= n,
            n < (r + 1) * (r + 1),
            s * s <= n,
            n < (s + 1) * (s + 1),
    ;
}

/// The floor of the square root, by linear search from below.
pub fn isqrt(n: u64) -> (r: u64)
    requires
        n <= 4_000_000_000,
    ensures
        r as nat == sqrt_floor(n as nat),
{
    let mut r: u64 = 0;
    loop
        invariant
            n <= 4_000_000_000,
            (r as int) * (r as int) <= n as int,
            r <= 63_245,
        ensures
            (r as int) * (r as int) <= n as int,
            (n as int) < ((r + 1) as int) * ((r + 1) as int),
        decreases 63_246 - r,
    {
        proof {
            assert(((r + 1) as int) * ((r + 1) as int) <= 63_246 * 63_246) by (nonlinear_arith)
                requires
                    0 <= r as int <= 63_245,
            ;
        }
        let next = (r + 1) * (r + 1);
        if next > n {
            break;
        }
        proof {
            assert((r + 1) as int <= 63_245) by (nonlinear_arith)
                requires
                    ((r + 1) as int) * ((r + 1) as int) <= 4_000_000_000,
                    0 <= r as int,
            ;
        }
        r = r + 1;
    }
    proof {
        lemma_sqrt_floor_unique(n as nat, r as nat);
    }
    r
}

} // verus!
