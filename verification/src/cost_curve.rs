//! Pure cost-curve and prestige-requirement formulas.
//!
//! Prices grow geometrically with the owned count: each owned unit
//! multiplies the price by a fixed percentage (115% for generators,
//! 120% for multipliers), truncating to whole currency units at every
//! step. A generator's tier grants a discount of `tier` percent, taken
//! once on the base cost before the growth is applied (and clamped so
//! a price never falls below one currency unit); at count zero the
//! price is the undiscounted base cost, which is also what a prestige
//! reset restores. All model values are unbounded naturals; the
//! executable functions return the value clamped into `u128`.

use crate::math::{
    lemma_mul_div_grows, lemma_sat128_mul_div, lemma_sat128_mul_left, sat128, sat_mul,
    sat_mul_div,
};
use vstd::arithmetic::div_mod::{
    lemma_div_by_multiple, lemma_div_is_ordered, lemma_div_multiples_vanish,
    lemma_fundamental_div_mod,
};
use vstd::arithmetic::mul::lemma_mul_inequality;
use vstd::prelude::*;

verus! {

/// One unit of geometric growth: multiply by `growth` percent,
/// truncated to a whole currency amount.
pub open spec fn price_step(p: nat, growth: nat) -> nat {
    (p * growth) / 100
}

/// `count` units of geometric growth applied to a starting price.
pub open spec fn grown_price(p: nat, growth: nat, count: nat) -> nat
    decreases count,
{
    if count == 0 {
        p
    } else {
        price_step(grown_price(p, growth, (count - 1) as nat), growth)
    }
}

/// The base cost after the tier discount of `tier` percent, clamped to
/// at least one currency unit.
pub open spec fn discounted_base(base: nat, tier: nat) -> nat {
    if tier >= 100 {
        1
    } else if (base * ((100 - tier) as nat)) / 100 == 0 {
        1
    } else {
        (base * ((100 - tier) as nat)) / 100
    }
}

/// Model price of a generator owned `count` times: the base cost while
/// none is owned, then 115%-per-unit growth of the discounted base.
pub open spec fn spec_generator_price(base: nat, count: nat, tier: nat) -> nat {
    if count == 0 {
        base
    } else {
        grown_price(discounted_base(base, tier), 115, count)
    }
}

/// Model price of a multiplier owned `count` times: 120%-per-unit
/// growth of the base cost, with no discount.
pub open spec fn spec_multiplier_price(base: nat, count: nat) -> nat {
    grown_price(base, 120, count)
}

/// Currency needed to prestige out of `level`: 10^11 at level zero,
/// scaled by `level + 1` and by a factor that rises five percent per
/// level (an integer rendering of the design's slowly rising exponent).
pub open spec fn spec_prestige_requirement(level: nat) -> nat {
    (level + 1) * (100 + 5 * level) * 1_000_000_000
}

/// Geometric growth, clamped into `u128` at every step.
fn grown_price_exec(p: u128, growth: u128, count: u128) -> (r: u128)
    requires
        100 <= growth <= 1000,
    ensures
        r == sat128(grown_price(p as nat, growth as nat, count as nat) as int),
{
    let mut cur = p;
    let mut i: u128 = 0;
    while i < count
        invariant
            i <= count,
            100 <= growth <= 1000,
            cur == sat128(grown_price(p as nat, growth as nat, i as nat) as int),
        decreases count - i,
    {
        proof {
            let g = grown_price(p as nat, growth as nat, i as nat);
            lemma_sat128_mul_div(g as int, growth as int, 100);
            assert(grown_price(p as nat, growth as nat, (i + 1) as nat) == price_step(
                g,
                growth as nat,
            ));
        }
        cur = sat_mul_div(cur, growth, 100);
        i = i + 1;
    }
    cur
}

/// Current purchase price of a generator.
pub fn generator_price(base: u128, count: u128, tier: u128) -> (r: u128)
    ensures
        r == sat128(spec_generator_price(base as nat, count as nat, tier as nat) as int),
{
    if count == 0 {
        return base;
    }
    let eb = if tier >= 100 {
        1
    } else {
        proof {
            // (base * (100 - tier)) / 100 <= base, so the discounted
            // base is exact and never saturates.
            assert(base as int * (100 - tier as int) <= 100 * base as int) by (nonlinear_arith)
                requires
                    tier < 100,
            ;
            lemma_div_is_ordered(base as int * (100 - tier as int), 100 * base as int, 100);
            lemma_div_multiples_vanish(base as int, 100);
        }
        let db = sat_mul_div(base, 100 - tier, 100);
        if db == 0 {
            1
        } else {
            db
        }
    };
    assert(eb == discounted_base(base as nat, tier as nat));
    grown_price_exec(eb, 115, count)
}

/// Current purchase price of a multiplier.
pub fn multiplier_price(base: u128, count: u128) -> (r: u128)
    ensures
        r == sat128(spec_multiplier_price(base as nat, count as nat) as int),
{
    grown_price_exec(base, 120, count)
}

/// The prestige requirement, clamped into `u128`.
pub fn prestige_requirement(level: u64) -> (r: u128)
    ensures
        r == sat128(spec_prestige_requirement(level as nat) as int),
{
    let a = level as u128 + 1;
    let b = 100 + 5 * (level as u128);
    let t = sat_mul(a, b);
    proof {
        lemma_sat128_mul_left(a as int * b as int, 1_000_000_000);
    }
    sat_mul(t, 1_000_000_000)
}

/// One growth step never lowers a price.
pub proof fn lemma_price_step_ge(p: nat, growth: nat)
    requires
        growth >= 100,
    ensures
        price_step(p, growth) >= p,
{
    lemma_mul_div_grows(p as int, growth as int, 100);
}

/// One growth step strictly raises a price once the price is large
/// enough that the growth margin clears one whole currency unit.
pub proof fn lemma_price_step_strict(p: nat, growth: nat)
    requires
        growth >= 100,
        p * (growth - 100) >= 100,
    ensures
        price_step(p, growth) >= p + 1,
{
    assert(p * growth >= 100 * (p + 1)) by (nonlinear_arith)
        requires
            growth >= 100,
            p * (growth - 100) >= 100,
    ;
    lemma_div_is_ordered(100 * (p + 1) as int, p as int * growth as int, 100);
    lemma_div_by_multiple(p as int + 1, 100);
    assert((p as int + 1) * 100 == 100 * (p + 1)) by (nonlinear_arith);
}

/// Grown prices never fall below the starting price.
pub proof fn lemma_grown_price_ge(p: nat, growth: nat, count: nat)
    requires
        growth >= 100,
    ensures
        grown_price(p, growth, count) >= p,
    decreases count,
{
    if count > 0 {
        lemma_grown_price_ge(p, growth, (count - 1) as nat);
        lemma_price_step_ge(grown_price(p, growth, (count - 1) as nat), growth);
    }
}

/// Geometric growth is strictly increasing in the owned count, as soon
/// as the starting price clears the strictness threshold.
pub proof fn lemma_grown_price_strict(p: nat, growth: nat, c1: nat, c2: nat)
    requires
        growth >= 100,
        p * (growth - 100) >= 100,
        c1 < c2,
    ensures
        grown_price(p, growth, c1) < grown_price(p, growth, c2),
    decreases c2,
{
    let prev = grown_price(p, growth, (c2 - 1) as nat);
    lemma_grown_price_ge(p, growth, (c2 - 1) as nat);
    lemma_mul_inequality(p as int, prev as int, growth as int - 100);
    lemma_price_step_strict(prev, growth);
    if c1 < c2 - 1 {
        lemma_grown_price_strict(p, growth, c1, (c2 - 1) as nat);
    }
}

/// A multiplier's price is strictly increasing in its owned count, for
/// any base cost of at least five currency units (below that the
/// twenty-percent step can truncate away entirely).
pub proof fn lemma_multiplier_price_strictly_increasing(base: nat, c1: nat, c2: nat)
    requires
        base >= 5,
        c1 < c2,
    ensures
        spec_multiplier_price(base, c1) < spec_multiplier_price(base, c2),
{
    lemma_grown_price_strict(base, 120, c1, c2);
}

/// A generator's price is strictly increasing in its owned count,
/// provided the discounted fifteen-percent step always clears one
/// whole currency unit; the stated bound guarantees that, and holds
/// for every catalog entry. (A base cost of 1 at tier 0 fails it: the
/// price would stay at 1 forever.)
pub proof fn lemma_generator_price_strictly_increasing(base: nat, tier: nat, c1: nat, c2: nat)
    requires
        tier <= 13,
        base * (1500 - 115 * tier) >= 21500,
        c1 < c2,
    ensures
        spec_generator_price(base, c1, tier) < spec_generator_price(base, c2, tier),
{
    let b = base * (100 - tier);
    assert(b * 15 >= 21500) by (nonlinear_arith)
        requires
            tier <= 13,
            base * (1500 - 115 * tier) >= 21500,
            b == base * (100 - tier),
    ;
    assert(b >= 1434);
    lemma_fundamental_div_mod(b as int, 100);
    let eb0 = b / 100;
    assert(100 * eb0 >= b - 99);
    assert(eb0 >= 13);
    let eb = discounted_base(base, tier);
    assert(eb == eb0);
    // The growth margin of the discounted base clears one unit.
    assert(eb * 15 >= 100);
    if c1 == 0 {
        // The first step already exceeds the undiscounted base:
        // 115 * eb >= 100 * (base + 1).
        assert(115 * (100 * eb0) >= 115 * (b - 99)) by (nonlinear_arith)
            requires
                100 * eb0 >= b - 99,
        ;
        assert(115 * b >= 10000 * base + 21385) by (nonlinear_arith)
            requires
                tier <= 13,
                base * (1500 - 115 * tier) >= 21500,
                b == base * (100 - tier),
        ;
        assert(eb * 115 >= 100 * (base + 1)) by (nonlinear_arith)
            requires
                115 * (100 * eb) >= 115 * b - 115 * 99,
                115 * b >= 10000 * base + 21385,
        ;
        lemma_div_is_ordered(100 * (base + 1) as int, eb as int * 115, 100);
        lemma_div_by_multiple(base as int + 1, 100);
        assert((base as int + 1) * 100 == 100 * (base + 1)) by (nonlinear_arith);
        assert(price_step(eb, 115) >= base + 1);
        assert(grown_price(eb, 115, 1) == price_step(grown_price(eb, 115, 0), 115));
        if c2 > 1 {
            lemma_grown_price_strict(eb, 115, 1, c2);
        }
    } else {
        lemma_grown_price_strict(eb, 115, c1, c2);
    }
}

/// The prestige requirement is strictly increasing in the level.
pub proof fn lemma_prestige_requirement_increasing(l1: nat, l2: nat)
    requires
        l1 < l2,
    ensures
        spec_prestige_requirement(l1) < spec_prestige_requirement(l2),
{
    assert((l1 + 1) * (100 + 5 * l1) < (l2 + 1) * (100 + 5 * l2)) by (nonlinear_arith)
        requires
            l1 < l2,
    ;
    lemma_mul_inequality(
        ((l1 + 1) * (100 + 5 * l1) + 1) as int,
        ((l2 + 1) * (100 + 5 * l2)) as int,
        1_000_000_000,
    );
    assert(((l1 + 1) * (100 + 5 * l1) + 1) * 1_000_000_000 > ((l1 + 1) * (100 + 5 * l1))
        * 1_000_000_000) by (nonlinear_arith);
}

} // verus!
