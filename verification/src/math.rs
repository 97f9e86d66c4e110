//! Saturating 128-bit arithmetic.
//!
//! The currency of the game must tolerate late-game magnitudes around
//! 10^24 and beyond without silently wrapping, so every ledger
//! operation saturates at `u128::MAX` instead of overflowing. The
//! spec-level model works over unbounded integers; `sat128` maps a
//! model value into the machine range, and each executable helper is
//! proved to return exactly the saturated model value.

use vstd::arithmetic::div_mod::{
    lemma_div_by_multiple, lemma_div_is_ordered, lemma_fundamental_div_mod,
    lemma_hoist_over_denominator,
};
use vstd::arithmetic::mul::{lemma_mul_inequality, lemma_mul_upper_bound};
use vstd::prelude::*;

verus! {

/// Clamp an unbounded model value into the `u128` range.
pub open spec fn sat128(n: int) -> u128 {
    if n > u128::MAX {
        u128::MAX
    } else if n < 0 {
        0
    } else {
        n as u128
    }
}

/// Saturating addition: exactly the clamped mathematical sum.
pub fn sat_add(a: u128, b: u128) -> (r: u128)
    ensures
        r == sat128(a + b),
{
    if a > u128::MAX - b {
        u128::MAX
    } else {
        a + b
    }
}

/// Saturating multiplication: exactly the clamped mathematical product.
pub fn sat_mul(a: u128, b: u128) -> (r: u128)
    ensures
        r == sat128(a as int * b as int),
{
    if a == 0 || b == 0 {
        return 0;
    }
    let q = u128::MAX / b;
    proof {
        lemma_fundamental_div_mod(u128::MAX as int, b as int);
        // u128::MAX == b * q + u128::MAX % b, with 0 <= u128::MAX % b < b
        if a <= q {
            lemma_mul_inequality(a as int, q as int, b as int);
        } else {
            lemma_mul_inequality(q as int + 1, a as int, b as int);
            assert((q as int + 1) * b as int == q as int * b as int + b as int)
                by (nonlinear_arith);
        }
        assert(q as int * b as int == b as int * q as int) by (nonlinear_arith);
    }
    if a <= q {
        a * b
    } else {
        u128::MAX
    }
}

/// The floor-division identity behind `sat_mul_div`: splitting both
/// factors by the divisor lets `(a * m) / d` be computed without ever
/// forming the full product.
pub proof fn lemma_mul_div_split(a: int, m: int, d: int)
    requires
        0 <= a,
        0 <= m,
        0 < d,
    ensures
        (a * m) / d == (a / d) * m + (a % d) * (m / d) + ((a % d) * (m % d)) / d,
{
    let q = a / d;
    let r = a % d;
    let s = m / d;
    let u = m % d;
    lemma_fundamental_div_mod(a, d);
    lemma_fundamental_div_mod(m, d);
    // First split the left factor: (a * m) / d == q * m + (r * m) / d.
    assert(a * m == r * m + (q * m) * d) by (nonlinear_arith)
        requires
            a == d * q + r,
    ;
    assert(0 <= r * m) by (nonlinear_arith)
        requires
            0 <= r,
            0 <= m,
    ;
    lemma_hoist_over_denominator(r * m, q * m, d as nat);
    // Then split the right factor: (r * m) / d == r * s + (r * u) / d.
    assert(r * m == r * u + (r * s) * d) by (nonlinear_arith)
        requires
            m == d * s + u,
    ;
    assert(0 <= r * u) by (nonlinear_arith)
        requires
            0 <= r,
            0 <= u,
    ;
    lemma_hoist_over_denominator(r * u, r * s, d as nat);
}

/// Saturating `(a * m) / d`, exact even where `a * m` would overflow.
pub fn sat_mul_div(a: u128, m: u128, d: u128) -> (r: u128)
    requires
        0 < d <= u64::MAX as u128,
    ensures
        r == sat128((a as int * m as int) / d as int),
{
    let q = a / d;
    let r0 = a % d;
    let s = m / d;
    let u = m % d;
    proof {
        lemma_mul_div_split(a as int, m as int, d as int);
        let hi = (u128::MAX / d) as int;
        // r0 * s fits: r0 <= d - 1 and s <= u128::MAX / d
        lemma_div_is_ordered(m as int, u128::MAX as int, d as int);
        lemma_mul_upper_bound(r0 as int, d as int - 1, s as int, hi);
        lemma_mul_inequality(d as int - 1, d as int, hi);
        lemma_fundamental_div_mod(u128::MAX as int, d as int);
        assert(d as int * hi <= u128::MAX as int);
        // r0 * u fits: both are below 2^64
        lemma_mul_upper_bound(r0 as int, u64::MAX - 1, u as int, u64::MAX - 1);
        assert((u64::MAX - 1) * (u64::MAX - 1) <= u128::MAX) by (nonlinear_arith);
    }
    let t1 = sat_mul(q, m);
    let t2 = r0 * s;
    let t3 = (r0 * u) / d;
    proof {
        lemma_sat128_add_left(q as int * m as int, t2 as int);
        lemma_sat128_add_left(q as int * m as int + t2 as int, t3 as int);
    }
    sat_add(sat_add(t1, t2), t3)
}

/// Adding onto an already-saturated value saturates the whole sum.
pub proof fn lemma_sat128_add_left(x: int, y: int)
    requires
        0 <= x,
        0 <= y,
    ensures
        sat128(sat128(x) as int + y) == sat128(x + y),
{
}

/// A sum of two clamped values clamps to the sum of the models.
pub proof fn lemma_sat128_add_both(x: int, y: int)
    requires
        0 <= x,
        0 <= y,
    ensures
        sat128(sat128(x) as int + sat128(y) as int) == sat128(x + y),
{
}

/// Multiplying an already-saturated value by a positive factor
/// saturates the whole product.
pub proof fn lemma_sat128_mul_left(x: int, y: int)
    requires
        0 <= x,
        1 <= y,
    ensures
        sat128(sat128(x) as int * y) == sat128(x * y),
{
    if x > u128::MAX {
        lemma_mul_inequality(1, y, u128::MAX as int);
        assert(1 * u128::MAX as int == u128::MAX as int) by (nonlinear_arith);
        assert(u128::MAX as int * y == y * u128::MAX as int) by (nonlinear_arith);
        lemma_mul_inequality(1, y, x);
        assert(1 * x == x) by (nonlinear_arith);
        assert(x * y == y * x) by (nonlinear_arith);
    }
}

/// Growing by a factor of at least `d / d == 1` never shrinks:
/// `(p * m) / d >= p` whenever `m >= d`.
pub proof fn lemma_mul_div_grows(p: int, m: int, d: int)
    requires
        0 <= p,
        0 < d <= m,
    ensures
        (p * m) / d >= p,
{
    lemma_mul_inequality(d, m, p);
    assert(d * p == p * d) by (nonlinear_arith);
    assert(m * p == p * m) by (nonlinear_arith);
    lemma_div_by_multiple(p, d);
    lemma_div_is_ordered(p * d, p * m, d);
}

/// Feeding a clamped value through a growing `(x * m) / d` step gives
/// the clamp of feeding the model value through the same step.
pub proof fn lemma_sat128_mul_div(x: int, m: int, d: int)
    requires
        0 <= x,
        0 < d <= m,
    ensures
        sat128((sat128(x) as int * m) / d) == sat128((x * m) / d),
{
    if x > u128::MAX {
        lemma_mul_div_grows(u128::MAX as int, m, d);
        lemma_mul_div_grows(x, m, d);
    }
}

} // verus!
