//! Fixed-point arithmetic helpers.
//!
//! Quantities are stored in thousandths of a world unit. Scaling between
//! such quantities divides by a positive constant with truncation toward
//! zero, the rounding a hardware float-to-integer cast performs.

use vstd::prelude::*;

verus! {

/// Quotient of `a` by `b`, truncated toward zero.
pub open spec fn div_trunc(a: int, b: int) -> int
    recommends
        b > 0,
{
    if a >= 0 {
        a / b
    } else {
        -((-a) / b)
    }
}

/// Divides `a` by the positive divisor `b`, truncating toward zero.
pub fn div_trunc_exec(a: i64, b: i64) -> (r: i64)
    requires
        b > 0,
        a != i64::MIN,
    ensures
        r == div_trunc(a as int, b as int),
{
    if a >= 0 {
        let q: u64 = (a as u64) / (b as u64);
        q as i64
    } else {
        let m: u64 = ((-a) as u64);
        let q: u64 = m / (b as u64);
        assert(m as int / (b as int) <= m as int) by {
            vstd::arithmetic::div_mod::lemma_div_nonincreasing(m as int, b as int);
        }
        -(q as i64)
    }
}

/// Truncating division is monotone in the dividend.
pub proof fn lemma_div_trunc_ordered(a: int, b: int, d: int)
    requires
        a <= b,
        0 < d,
    ensures
        div_trunc(a, d) <= div_trunc(b, d),
{
    if a >= 0 {
        vstd::arithmetic::div_mod::lemma_div_is_ordered(a, b, d);
    } else if b < 0 {
        vstd::arithmetic::div_mod::lemma_div_is_ordered(-b, -a, d);
    } else {
        vstd::arithmetic::div_mod::lemma_div_pos_is_pos(-a, d);
        vstd::arithmetic::div_mod::lemma_div_pos_is_pos(b, d);
    }
}

/// A bound on the dividend's magnitude bounds the truncated quotient.
pub proof fn lemma_div_trunc_bounds(a: int, d: int, m: int)
    requires
        0 < d,
        0 <= m,
        -m <= a <= m,
    ensures
        -(m / d) <= div_trunc(a, d) <= m / d,
{
    if a >= 0 {
        vstd::arithmetic::div_mod::lemma_div_is_ordered(a, m, d);
        vstd::arithmetic::div_mod::lemma_div_pos_is_pos(a, d);
    } else {
        vstd::arithmetic::div_mod::lemma_div_is_ordered(-a, m, d);
        vstd::arithmetic::div_mod::lemma_div_pos_is_pos(-a, d);
    }
}

/// Scaling a value by a factor of at most one whole unit cannot grow its
/// magnitude: `|v * f / 1000| <= |v|` whenever `0 <= f <= 1000`.
pub proof fn lemma_scale_within_unit_shrinks(v: int, f: int)
    requires
        0 <= f <= 1000,
    ensures
        v >= 0 ==> 0 <= div_trunc(v * f, 1000) <= v,
        v < 0 ==> v <= div_trunc(v * f, 1000) <= 0,
{
    if v >= 0 {
        lemma_scale_nonneg_shrinks(v, f);
    } else {
        lemma_scale_nonneg_shrinks(-v, f);
        assert(v * f == -((-v) * f)) by (nonlinear_arith);
    }
}

proof fn lemma_scale_nonneg_shrinks(v: int, f: int)
    requires
        v >= 0,
        0 <= f <= 1000,
    ensures
        0 <= div_trunc(v * f, 1000) <= v,
{
    vstd::arithmetic::mul::lemma_mul_nonnegative(v, f);
    vstd::arithmetic::mul::lemma_mul_inequality(f, 1000, v);
    vstd::arithmetic::div_mod::lemma_div_is_ordered(v * f, v * 1000, 1000);
    vstd::arithmetic::div_mod::lemma_div_by_multiple(v, 1000);
    vstd::arithmetic::div_mod::lemma_div_pos_is_pos(v * f, 1000);
}

} // verus!
