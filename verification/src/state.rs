//! The economy state: the single mutable ledger of a game.
//!
//! `GameState` owns the currency balance, lifetime totals, the catalog
//! items with their owned counts and cached prices, the prestige
//! progress, and the achievement flags. Its well-formedness invariant
//! pins every derived field to the model that defines it: each cached
//! price equals the cost curve at the item's count, the production
//! rate equals the sum over all generators with the prestige bonus,
//! and the click yield equals one plus the sum over all multipliers.
//! Every mutator is proved to re-establish the invariant.

use crate::achievements::{Achievement, AchievementList, AchievementRequirement};
use crate::catalog::{PowerUp, Upgrade};
use crate::cost_curve::{
    generator_price, multiplier_price, prestige_requirement, spec_prestige_requirement,
};
use crate::math::{
    lemma_sat128_add_both, lemma_sat128_mul_div, lemma_sat128_mul_left, sat128, sat_add, sat_mul,
    sat_mul_div,
};
use vstd::arithmetic::div_mod::lemma_div_is_ordered;
use vstd::prelude::*;

verus! {

/// Divisor taking lifetime cookies to banked prestige currency.
pub const PRESTIGE_POINT_DIVISOR: u128 = 1_000_000;

/// Floor on the reward of a special-bonus pickup.
pub const FLOOR_BONUS: u128 = 2000;

/// The recoverable failures of the economy core. No operation panics;
/// a failed mutator leaves the state untouched.
#[derive(Clone, Copy, Debug, PartialEq, Eq, Structural)]
pub enum EconomyError {
    /// A purchase was attempted with a balance below the price.
    InsufficientFunds,
    /// A caller named an item index outside the catalog.
    IndexOutOfRange,
    /// A prestige was attempted below the requirement.
    NotEnoughLifetimeCurrency,
}

/// The mutable ledger of one game.
pub struct GameState {
    /// Spendable balance.
    pub cookies: u128,
    /// Cookies earned in the current run; a prestige resets it.
    pub total_cookies_earned: u128,
    /// Derived passive production, in thousandths of a cookie per
    /// second; always equals `spec_rate_sum` clamped into `u128`.
    pub cookies_per_second_milli: u128,
    /// Derived manual-click yield; always equals `spec_click_yield`
    /// clamped into `u128`.
    pub cookies_per_click: u128,
    /// The generator catalog with owned counts and cached prices.
    pub upgrades: Vec<Upgrade>,
    /// The multiplier catalog with owned counts and cached prices.
    pub powerups: Vec<PowerUp>,
    /// Completed prestiges; never decreases within a game.
    pub prestige_level: u64,
    /// Banked prestige currency; never decreases within a game.
    pub prestige_points: u128,
    /// Cookies earned over the whole game; never reset.
    pub lifetime_cookies: u128,
    /// Total manual actions.
    pub click_count: u128,
    /// Total special-bonus pickups collected.
    pub golden_cookies_clicked: u128,
    /// The achievement catalog and its unlocked flags.
    pub achievements: AchievementList,
}

/// Passive production of one generator, in thousandths of a cookie per
/// second: yield times count, raised by one percent per prestige
/// level, truncated.
pub open spec fn spec_item_rate(cps_milli: nat, count: nat, level: nat) -> nat {
    (cps_milli * count * (100 + level)) / 100
}

/// Total passive production of a generator list.
pub open spec fn spec_rate_sum(gens: Seq<Upgrade>, level: nat) -> nat
    decreases gens.len(),
{
    if gens.len() == 0 {
        0
    } else {
        spec_rate_sum(gens.drop_last(), level) + spec_item_rate(
            gens.last().cps_milli as nat,
            gens.last().count as nat,
            level,
        )
    }
}

/// Manual-click yield granted by a multiplier list: a base click of
/// one cookie plus each multiplier's bonus times its owned count.
pub open spec fn spec_click_yield(mults: Seq<PowerUp>) -> nat
    decreases mults.len(),
{
    if mults.len() == 0 {
        1
    } else {
        spec_click_yield(mults.drop_last()) + mults.last().multiplier as nat
            * mults.last().count as nat
    }
}

impl GameState {
    /// The internal invariant: flags parallel to achievements, every
    /// cached price on its curve, both derived fields equal to their
    /// models, and no more prestige currency banked than the lifetime
    /// earnings support.
    pub open spec fn wf(self) -> bool {
        &&& self.achievements.wf()
        &&& forall|i: int|
            0 <= i < self.upgrades@.len() ==> (#[trigger] self.upgrades@[i]).price_ok()
        &&& forall|i: int|
            0 <= i < self.powerups@.len() ==> (#[trigger] self.powerups@[i]).price_ok()
        &&& self.cookies_per_second_milli == sat128(
            spec_rate_sum(self.upgrades@, self.prestige_level as nat) as int,
        )
        &&& self.cookies_per_click == sat128(spec_click_yield(self.powerups@) as int)
        &&& self.prestige_points as nat <= self.lifetime_cookies as nat
            / PRESTIGE_POINT_DIVISOR as nat
    }
}

/// Recompute total passive production from scratch.
pub fn recompute_rate(gens: &Vec<Upgrade>, level: u64) -> (r: u128)
    ensures
        r == sat128(spec_rate_sum(gens@, level as nat) as int),
{
    let bonus: u128 = 100 + level as u128;
    let mut acc: u128 = 0;
    let mut i: usize = 0;
    while i < gens.len()
        invariant
            i <= gens@.len(),
            bonus == 100 + level as u128,
            acc == sat128(spec_rate_sum(gens@.take(i as int), level as nat) as int),
        decreases gens@.len() - i,
    {
        let a = sat_mul(gens[i].cps_milli, gens[i].count);
        let term = sat_mul_div(a, bonus, 100);
        proof {
            let cm = gens@[i as int].cps_milli as int;
            let cn = gens@[i as int].count as int;
            lemma_sat128_mul_div(cm * cn, bonus as int, 100);
            assert(spec_item_rate(cm as nat, cn as nat, level as nat) == (cm * cn * bonus)
                / 100);
            lemma_sat128_add_both(
                spec_rate_sum(gens@.take(i as int), level as nat) as int,
                spec_item_rate(cm as nat, cn as nat, level as nat) as int,
            );
            assert(gens@.take(i + 1).drop_last() =~= gens@.take(i as int));
            assert(gens@.take(i + 1).last() == gens@[i as int]);
        }
        acc = sat_add(acc, term);
        i = i + 1;
    }
    proof {
        assert(gens@.take(gens@.len() as int) =~= gens@);
    }
    acc
}

/// Recompute the manual-click yield from scratch.
pub fn recompute_click_yield(mults: &Vec<PowerUp>) -> (r: u128)
    ensures
        r == sat128(spec_click_yield(mults@) as int),
{
    let mut acc: u128 = 1;
    let mut i: usize = 0;
    while i < mults.len()
        invariant
            i <= mults@.len(),
            acc == sat128(spec_click_yield(mults@.take(i as int)) as int),
        decreases mults@.len() - i,
    {
        let term = sat_mul(mults[i].multiplier, mults[i].count);
        proof {
            let m = mults@[i as int].multiplier as int;
            let c = mults@[i as int].count as int;
            lemma_sat128_add_both(spec_click_yield(mults@.take(i as int)) as int, m * c);
            assert(mults@.take(i + 1).drop_last() =~= mults@.take(i as int));
            assert(mults@.take(i + 1).last() == mults@[i as int]);
        }
        acc = sat_add(acc, term);
        i = i + 1;
    }
    proof {
        assert(mults@.take(mults@.len() as int) =~= mults@);
    }
    acc
}

/// Growing the lifetime total can only raise the prestige-currency
/// headroom, so the banked bound survives every earn.
proof fn lemma_points_bound_kept(points: u128, old_lifetime: u128, new_lifetime: u128)
    requires
        points as nat <= old_lifetime as nat / PRESTIGE_POINT_DIVISOR as nat,
        old_lifetime <= new_lifetime,
    ensures
        points as nat <= new_lifetime as nat / PRESTIGE_POINT_DIVISOR as nat,
{
    lemma_div_is_ordered(old_lifetime as int, new_lifetime as int, PRESTIGE_POINT_DIVISOR as int);
}

/// What one tick of passive production earns: the production rate in
/// thousandths per second times the elapsed milliseconds, truncated to
/// whole cookies.
pub open spec fn spec_tick_earned(rate_milli: nat, delta_ms: nat) -> nat {
    (rate_milli * delta_ms) / 1_000_000
}

/// What a special-bonus pickup earns: a minute of the given production
/// rate scaled by the pickup's multiplier, but never below
/// `FLOOR_BONUS` (so an early-game pickup is still worth something).
pub open spec fn spec_bonus_earned(rate: nat, multiplier: nat) -> nat {
    if rate * multiplier * 60 < FLOOR_BONUS as nat {
        FLOOR_BONUS as nat
    } else {
        rate * multiplier * 60
    }
}

impl GameState {
    /// Credit earned cookies to the balance and to both totals.
    fn credit(&mut self, amount: u128)
        requires
            old(self).wf(),
        ensures
            final(self).wf(),
            final(self).cookies == sat128(old(self).cookies + amount),
            final(self).lifetime_cookies == sat128(old(self).lifetime_cookies + amount),
            final(self).total_cookies_earned == sat128(old(self).total_cookies_earned + amount),
            final(self).cookies_per_second_milli == old(self).cookies_per_second_milli,
            final(self).cookies_per_click == old(self).cookies_per_click,
            final(self).upgrades == old(self).upgrades,
            final(self).powerups == old(self).powerups,
            final(self).prestige_level == old(self).prestige_level,
            final(self).prestige_points == old(self).prestige_points,
            final(self).click_count == old(self).click_count,
            final(self).golden_cookies_clicked == old(self).golden_cookies_clicked,
            final(self).achievements == old(self).achievements,
    {
        self.cookies = sat_add(self.cookies, amount);
        let old_lifetime = self.lifetime_cookies;
        self.lifetime_cookies = sat_add(self.lifetime_cookies, amount);
        self.total_cookies_earned = sat_add(self.total_cookies_earned, amount);
        proof {
            lemma_points_bound_kept(self.prestige_points, old_lifetime, self.lifetime_cookies);
        }
    }

    /// One manual action: earn the click yield scaled by the combo
    /// multiplier, and count the click. Never fails.
    pub fn manual_action(&mut self, base_click_yield: u128, combo_multiplier: u128) -> (earned:
        u128)
        requires
            old(self).wf(),
        ensures
            final(self).wf(),
            earned == sat128(base_click_yield as int * combo_multiplier as int),
            final(self).cookies == sat128(old(self).cookies + earned),
            final(self).lifetime_cookies == sat128(old(self).lifetime_cookies + earned),
            final(self).total_cookies_earned == sat128(old(self).total_cookies_earned + earned),
            final(self).click_count == sat128(old(self).click_count + 1),
            final(self).cookies_per_second_milli == old(self).cookies_per_second_milli,
            final(self).cookies_per_click == old(self).cookies_per_click,
            final(self).upgrades == old(self).upgrades,
            final(self).powerups == old(self).powerups,
            final(self).prestige_level == old(self).prestige_level,
            final(self).prestige_points == old(self).prestige_points,
            final(self).golden_cookies_clicked == old(self).golden_cookies_clicked,
            final(self).achievements == old(self).achievements,
    {
        let earned = sat_mul(base_click_yield, combo_multiplier);
        self.credit(earned);
        self.click_count = sat_add(self.click_count, 1);
        earned
    }

    /// Collect a special bonus: earn a minute of the sampled production
    /// rate scaled by the pickup's multiplier, floored at
    /// `FLOOR_BONUS`, and count the pickup. Never fails.
    pub fn collect_special_bonus(&mut self, rate_snapshot: u128, multiplier: u128) -> (earned:
        u128)
        requires
            old(self).wf(),
        ensures
            final(self).wf(),
            earned == sat128(spec_bonus_earned(rate_snapshot as nat, multiplier as nat) as int),
            final(self).cookies == sat128(old(self).cookies + earned),
            final(self).lifetime_cookies == sat128(old(self).lifetime_cookies + earned),
            final(self).total_cookies_earned == sat128(old(self).total_cookies_earned + earned),
            final(self).golden_cookies_clicked == sat128(old(self).golden_cookies_clicked + 1),
            final(self).click_count == old(self).click_count,
            final(self).cookies_per_second_milli == old(self).cookies_per_second_milli,
            final(self).cookies_per_click == old(self).cookies_per_click,
            final(self).upgrades == old(self).upgrades,
            final(self).powerups == old(self).powerups,
            final(self).prestige_level == old(self).prestige_level,
            final(self).prestige_points == old(self).prestige_points,
            final(self).achievements == old(self).achievements,
    {
        let base = sat_mul(rate_snapshot, multiplier);
        proof {
            lemma_sat128_mul_left(rate_snapshot as int * multiplier as int, 60);
        }
        let raw = sat_mul(base, 60);
        let earned = if raw < FLOOR_BONUS {
            FLOOR_BONUS
        } else {
            raw
        };
        self.credit(earned);
        self.golden_cookies_clicked = sat_add(self.golden_cookies_clicked, 1);
        earned
    }

    /// One fixed-interval update: credit the passive production earned
    /// over `delta_ms` milliseconds, truncated to whole cookies. Safe
    /// for arbitrarily small or large intervals; a truncated-to-zero
    /// product credits nothing.
    pub fn tick(&mut self, delta_ms: u64)
        requires
            old(self).wf(),
        ensures
            final(self).wf(),
            final(self).cookies == sat128(
                old(self).cookies + spec_tick_earned(
                    old(self).cookies_per_second_milli as nat,
                    delta_ms as nat,
                ),
            ),
            final(self).lifetime_cookies == sat128(
                old(self).lifetime_cookies + spec_tick_earned(
                    old(self).cookies_per_second_milli as nat,
                    delta_ms as nat,
                ),
            ),
            final(self).total_cookies_earned == sat128(
                old(self).total_cookies_earned + spec_tick_earned(
                    old(self).cookies_per_second_milli as nat,
                    delta_ms as nat,
                ),
            ),
            final(self).click_count == old(self).click_count,
            final(self).cookies_per_second_milli == old(self).cookies_per_second_milli,
            final(self).cookies_per_click == old(self).cookies_per_click,
            final(self).upgrades == old(self).upgrades,
            final(self).powerups == old(self).powerups,
            final(self).prestige_level == old(self).prestige_level,
            final(self).prestige_points == old(self).prestige_points,
            final(self).golden_cookies_clicked == old(self).golden_cookies_clicked,
            final(self).achievements == old(self).achievements,
    {
        let earned = sat_mul_div(self.cookies_per_second_milli, delta_ms as u128, 1_000_000);
        proof {
            // The credited amount is itself clamped, so crediting it
            // equals crediting the unbounded model amount.
            let t = (self.cookies_per_second_milli as int * delta_ms as int) / 1_000_000;
            lemma_sat128_add_both(self.cookies as int, t);
            lemma_sat128_add_both(self.lifetime_cookies as int, t);
            lemma_sat128_add_both(self.total_cookies_earned as int, t);
        }
        self.credit(earned);
    }

    /// Buy one unit of the generator at `index`. Succeeds exactly when
    /// the index is valid and the balance covers the cached price; on
    /// success it debits the price, raises the count by one, puts the
    /// item's cached price back on its curve, and recomputes the
    /// production rate. On failure nothing changes.
    pub fn purchase_generator(&mut self, index: usize) -> (result: Result<(), EconomyError>)
        requires
            old(self).wf(),
        ensures
            final(self).wf(),
            index >= old(self).upgrades@.len() ==> result == Err::<(), EconomyError>(
                EconomyError::IndexOutOfRange,
            ) && *final(self) == *old(self),
            index < old(self).upgrades@.len() && old(self).cookies < old(self).upgrades@[
                index as int].cost ==> result == Err::<(), EconomyError>(
                EconomyError::InsufficientFunds,
            ) && *final(self) == *old(self),
            index < old(self).upgrades@.len() && old(self).cookies >= old(self).upgrades@[
                index as int].cost ==> {
                &&& result == Ok::<(), EconomyError>(())
                &&& final(self).cookies == old(self).cookies - old(self).upgrades@[
                    index as int].cost
                &&& final(self).upgrades@.len() == old(self).upgrades@.len()
                &&& final(self).upgrades@[index as int].count == sat128(
                    old(self).upgrades@[index as int].count + 1,
                )
                &&& final(self).upgrades@[index as int].name == old(self).upgrades@[
                    index as int].name
                &&& final(self).upgrades@[index as int].base_cost == old(self).upgrades@[
                    index as int].base_cost
                &&& final(self).upgrades@[index as int].cps_milli == old(self).upgrades@[
                    index as int].cps_milli
                &&& final(self).upgrades@[index as int].tier == old(self).upgrades@[
                    index as int].tier
                &&& final(self).upgrades@[index as int].description == old(self).upgrades@[
                    index as int].description
                &&& forall|j: int|
                    0 <= j < old(self).upgrades@.len() && j != index ==> final(self).upgrades@[j]
                        == old(self).upgrades@[j]
                &&& final(self).powerups == old(self).powerups
                &&& final(self).total_cookies_earned == old(self).total_cookies_earned
                &&& final(self).lifetime_cookies == old(self).lifetime_cookies
                &&& final(self).cookies_per_click == old(self).cookies_per_click
                &&& final(self).prestige_level == old(self).prestige_level
                &&& final(self).prestige_points == old(self).prestige_points
                &&& final(self).click_count == old(self).click_count
                &&& final(self).golden_cookies_clicked == old(self).golden_cookies_clicked
                &&& final(self).achievements == old(self).achievements
            },
    {
        if index >= self.upgrades.len() {
            return Err(EconomyError::IndexOutOfRange);
        }
        let price = self.upgrades[index].cost;
        if self.cookies < price {
            return Err(EconomyError::InsufficientFunds);
        }
        self.cookies = self.cookies - price;
        let it = &self.upgrades[index];
        let new_count = sat_add(it.count, 1);
        let new_cost = generator_price(it.base_cost, new_count, it.tier);
        let updated = Upgrade {
            name: it.name.clone(),
            base_cost: it.base_cost,
            cost: new_cost,
            cps_milli: it.cps_milli,
            count: new_count,
            description: it.description.clone(),
            tier: it.tier,
        };
        self.upgrades.set(index, updated);
        self.cookies_per_second_milli = recompute_rate(&self.upgrades, self.prestige_level);
        Ok(())
    }

    /// Buy one unit of the multiplier at `index`. Succeeds exactly
    /// when the index is valid and the balance covers the cached
    /// price; on success it debits the price, raises the count by one,
    /// puts the item's cached price back on its curve, and recomputes
    /// the click yield. On failure nothing changes.
    pub fn purchase_multiplier(&mut self, index: usize) -> (result: Result<(), EconomyError>)
        requires
            old(self).wf(),
        ensures
            final(self).wf(),
            index >= old(self).powerups@.len() ==> result == Err::<(), EconomyError>(
                EconomyError::IndexOutOfRange,
            ) && *final(self) == *old(self),
            index < old(self).powerups@.len() && old(self).cookies < old(self).powerups@[
                index as int].cost ==> result == Err::<(), EconomyError>(
                EconomyError::InsufficientFunds,
            ) && *final(self) == *old(self),
            index < old(self).powerups@.len() && old(self).cookies >= old(self).powerups@[
                index as int].cost ==> {
                &&& result == Ok::<(), EconomyError>(())
                &&& final(self).cookies == old(self).cookies - old(self).powerups@[
                    index as int].cost
                &&& final(self).powerups@.len() == old(self).powerups@.len()
                &&& final(self).powerups@[index as int].count == sat128(
                    old(self).powerups@[index as int].count + 1,
                )
                &&& final(self).powerups@[index as int].name == old(self).powerups@[
                    index as int].name
                &&& final(self).powerups@[index as int].base_cost == old(self).powerups@[
                    index as int].base_cost
                &&& final(self).powerups@[index as int].multiplier == old(self).powerups@[
                    index as int].multiplier
                &&& final(self).powerups@[index as int].description == old(self).powerups@[
                    index as int].description
                &&& forall|j: int|
                    0 <= j < old(self).powerups@.len() && j != index ==> final(self).powerups@[j]
                        == old(self).powerups@[j]
                &&& final(self).upgrades == old(self).upgrades
                &&& final(self).cookies_per_click == sat128(
                    spec_click_yield(final(self).powerups@) as int,
                )
                &&& final(self).total_cookies_earned == old(self).total_cookies_earned
                &&& final(self).lifetime_cookies == old(self).lifetime_cookies
                &&& final(self).cookies_per_second_milli == old(self).cookies_per_second_milli
                &&& final(self).prestige_level == old(self).prestige_level
                &&& final(self).prestige_points == old(self).prestige_points
                &&& final(self).click_count == old(self).click_count
                &&& final(self).golden_cookies_clicked == old(self).golden_cookies_clicked
                &&& final(self).achievements == old(self).achievements
            },
    {
        if index >= self.powerups.len() {
            return Err(EconomyError::IndexOutOfRange);
        }
        let price = self.powerups[index].cost;
        if self.cookies < price {
            return Err(EconomyError::InsufficientFunds);
        }
        self.cookies = self.cookies - price;
        let it = &self.powerups[index];
        let new_count = sat_add(it.count, 1);
        let new_cost = multiplier_price(it.base_cost, new_count);
        let updated = PowerUp {
            name: it.name.clone(),
            base_cost: it.base_cost,
            cost: new_cost,
            multiplier: it.multiplier,
            count: new_count,
            description: it.description.clone(),
        };
        self.powerups.set(index, updated);
        self.cookies_per_click = recompute_click_yield(&self.powerups);
        Ok(())
    }

    /// Whether the balance currently meets the prestige requirement.
    pub open spec fn spec_prestige_available(self) -> bool {
        self.cookies >= sat128(spec_prestige_requirement(self.prestige_level as nat) as int)
    }

    /// Soft-reset the run. Fails (leaving the state untouched) exactly
    /// when the balance is below the prestige requirement. On success:
    /// the level rises by one, the banked prestige currency becomes
    /// the lifetime earnings divided by `PRESTIGE_POINT_DIVISOR`, the
    /// balance, run total and production rate reset to zero, and every
    /// generator returns to count zero at its base cost. Multipliers,
    /// achievements, lifetime totals and the click and pickup counters
    /// are untouched.
    pub fn prestige(&mut self) -> (result: Result<(), EconomyError>)
        requires
            old(self).wf(),
        ensures
            final(self).wf(),
            !old(self).spec_prestige_available() ==> result == Err::<(), EconomyError>(
                EconomyError::NotEnoughLifetimeCurrency,
            ) && *final(self) == *old(self),
            old(self).spec_prestige_available() ==> {
                &&& result == Ok::<(), EconomyError>(())
                &&& final(self).prestige_level == if old(self).prestige_level < u64::MAX {
                    (old(self).prestige_level + 1) as u64
                } else {
                    u64::MAX
                }
                &&& final(self).prestige_points == old(self).lifetime_cookies
                    / PRESTIGE_POINT_DIVISOR
                &&& final(self).cookies == 0
                &&& final(self).total_cookies_earned == 0
                &&& final(self).cookies_per_second_milli == 0
                &&& final(self).upgrades@.len() == old(self).upgrades@.len()
                &&& forall|i: int|
                    0 <= i < old(self).upgrades@.len() ==> {
                        &&& (#[trigger] final(self).upgrades@[i]).count == 0
                        &&& final(self).upgrades@[i].cost == old(self).upgrades@[i].base_cost
                        &&& final(self).upgrades@[i].name == old(self).upgrades@[i].name
                        &&& final(self).upgrades@[i].base_cost == old(self).upgrades@[i].base_cost
                        &&& final(self).upgrades@[i].cps_milli == old(self).upgrades@[i].cps_milli
                        &&& final(self).upgrades@[i].tier == old(self).upgrades@[i].tier
                        &&& final(self).upgrades@[i].description == old(self).upgrades@[
                            i].description
                    }
                &&& final(self).powerups == old(self).powerups
                &&& final(self).cookies_per_click == old(self).cookies_per_click
                &&& final(self).lifetime_cookies == old(self).lifetime_cookies
                &&& final(self).click_count == old(self).click_count
                &&& final(self).golden_cookies_clicked == old(self).golden_cookies_clicked
                &&& final(self).achievements == old(self).achievements
            },
    {
        let requirement = prestige_requirement(self.prestige_level);
        if self.cookies < requirement {
            return Err(EconomyError::NotEnoughLifetimeCurrency);
        }
        if self.prestige_level < u64::MAX {
            self.prestige_level = self.prestige_level + 1;
        }
        self.prestige_points = self.lifetime_cookies / PRESTIGE_POINT_DIVISOR;
        self.cookies = 0;
        self.total_cookies_earned = 0;
        let mut i: usize = 0;
        while i < self.upgrades.len()
            invariant
                i <= self.upgrades@.len(),
                self.upgrades@.len() == old(self).upgrades@.len(),
                self.cookies == 0,
                self.total_cookies_earned == 0,
                self.cookies_per_click == old(self).cookies_per_click,
                self.powerups == old(self).powerups,
                self.prestige_level == if old(self).prestige_level < u64::MAX {
                    (old(self).prestige_level + 1) as u64
                } else {
                    u64::MAX
                },
                self.prestige_points == old(self).lifetime_cookies / PRESTIGE_POINT_DIVISOR,
                self.lifetime_cookies == old(self).lifetime_cookies,
                self.click_count == old(self).click_count,
                self.golden_cookies_clicked == old(self).golden_cookies_clicked,
                self.achievements == old(self).achievements,
                old(self).wf(),
                forall|j: int|
                    0 <= j < i ==> {
                        &&& (#[trigger] self.upgrades@[j]).count == 0
                        &&& self.upgrades@[j].cost == old(self).upgrades@[j].base_cost
                        &&& self.upgrades@[j].name == old(self).upgrades@[j].name
                        &&& self.upgrades@[j].base_cost == old(self).upgrades@[j].base_cost
                        &&& self.upgrades@[j].cps_milli == old(self).upgrades@[j].cps_milli
                        &&& self.upgrades@[j].tier == old(self).upgrades@[j].tier
                        &&& self.upgrades@[j].description == old(self).upgrades@[j].description
                    },
                forall|j: int|
                    i <= j < self.upgrades@.len() ==> #[trigger] self.upgrades@[j] == old(
                        self,
                    ).upgrades@[j],
            decreases self.upgrades@.len() - i,
        {
            let it = &self.upgrades[i];
            let reset = Upgrade {
                name: it.name.clone(),
                base_cost: it.base_cost,
                cost: it.base_cost,
                cps_milli: it.cps_milli,
                count: 0,
                description: it.description.clone(),
                tier: it.tier,
            };
            self.upgrades.set(i, reset);
            i = i + 1;
        }
        proof {
            lemma_rate_sum_all_zero(self.upgrades@, self.prestige_level as nat);
        }
        self.cookies_per_second_milli = recompute_rate(&self.upgrades, self.prestige_level);
        Ok(())
    }
}

/// Whether an unlock condition holds of the given economy state and
/// the current combo level. A generator-count condition whose index
/// does not exist is simply never satisfied.
pub open spec fn spec_req_satisfied(
    req: AchievementRequirement,
    s: GameState,
    combo_level: u128,
) -> bool {
    match req {
        AchievementRequirement::TotalCookies(a) => s.lifetime_cookies >= a,
        AchievementRequirement::CookiesPerSecond(a) => s.cookies_per_second_milli / 1000 >= a,
        AchievementRequirement::Clicks(a) => s.click_count >= a,
        AchievementRequirement::GoldenCookies(a) => s.golden_cookies_clicked >= a,
        AchievementRequirement::BuildingCount(idx, c) => idx < s.upgrades@.len()
            && s.upgrades@[idx as int].count >= c,
        AchievementRequirement::PrestigeLevel(l) => s.prestige_level >= l,
        AchievementRequirement::Combos(c) => combo_level >= c,
    }
}

/// The unlocked flags after one evaluation pass: a flag holds exactly
/// when it already held or its condition is now satisfied.
pub open spec fn spec_unlocked_after(
    ach: Seq<Achievement>,
    unl: Seq<bool>,
    s: GameState,
    combo_level: u128,
) -> Seq<bool> {
    Seq::new(
        unl.len(),
        |i: int|
            unl[i] || (i < ach.len() && spec_req_satisfied(ach[i].requirement, s, combo_level)),
    )
}

/// The notifications of one evaluation pass over the first `n`
/// achievements: the name and description of each achievement whose
/// flag flips in this pass, in catalog order.
pub open spec fn spec_newly_unlocked(
    ach: Seq<Achievement>,
    unl: Seq<bool>,
    s: GameState,
    combo_level: u128,
    n: int,
) -> Seq<(String, String)>
    decreases n,
{
    if n <= 0 {
        Seq::empty()
    } else {
        let pre = spec_newly_unlocked(ach, unl, s, combo_level, n - 1);
        if 0 <= n - 1 < unl.len() && n - 1 < ach.len() && !unl[n - 1] && spec_req_satisfied(
            ach[n - 1].requirement,
            s,
            combo_level,
        ) {
            pre.push((ach[n - 1].name, ach[n - 1].description))
        } else {
            pre
        }
    }
}

impl GameState {
    /// Evaluate every achievement not yet unlocked against the current
    /// state and the given combo level, flip the newly satisfied flags
    /// (each exactly once, never back), and report the flipped
    /// achievements as (name, description) pairs in catalog order.
    pub fn check_achievements(&mut self, combo_level: u128) -> (newly: Vec<(String, String)>)
        requires
            old(self).wf(),
        ensures
            final(self).wf(),
            final(self).achievements.achievements == old(self).achievements.achievements,
            final(self).achievements.unlocked@ == spec_unlocked_after(
                old(self).achievements.achievements@,
                old(self).achievements.unlocked@,
                *old(self),
                combo_level,
            ),
            forall|i: int|
                0 <= i < old(self).achievements.unlocked@.len() && old(
                    self,
                ).achievements.unlocked@[i] ==> final(self).achievements.unlocked@[i],
            newly@ == spec_newly_unlocked(
                old(self).achievements.achievements@,
                old(self).achievements.unlocked@,
                *old(self),
                combo_level,
                old(self).achievements.achievements@.len() as int,
            ),
            final(self).cookies == old(self).cookies,
            final(self).total_cookies_earned == old(self).total_cookies_earned,
            final(self).cookies_per_second_milli == old(self).cookies_per_second_milli,
            final(self).cookies_per_click == old(self).cookies_per_click,
            final(self).upgrades == old(self).upgrades,
            final(self).powerups == old(self).powerups,
            final(self).prestige_level == old(self).prestige_level,
            final(self).prestige_points == old(self).prestige_points,
            final(self).lifetime_cookies == old(self).lifetime_cookies,
            final(self).click_count == old(self).click_count,
            final(self).golden_cookies_clicked == old(self).golden_cookies_clicked,
    {
        let mut newly: Vec<(String, String)> = Vec::new();
        let mut i: usize = 0;
        let n = self.achievements.achievements.len();
        while i < n
            invariant
                i <= n,
                n == self.achievements.achievements@.len(),
                self.achievements.achievements == old(self).achievements.achievements,
                self.achievements.unlocked@.len() == old(self).achievements.unlocked@.len(),
                self.achievements.unlocked@.len() == n,
                self.cookies == old(self).cookies,
                self.total_cookies_earned == old(self).total_cookies_earned,
                self.cookies_per_second_milli == old(self).cookies_per_second_milli,
                self.cookies_per_click == old(self).cookies_per_click,
                self.upgrades == old(self).upgrades,
                self.powerups == old(self).powerups,
                self.prestige_level == old(self).prestige_level,
                self.prestige_points == old(self).prestige_points,
                self.lifetime_cookies == old(self).lifetime_cookies,
                self.click_count == old(self).click_count,
                self.golden_cookies_clicked == old(self).golden_cookies_clicked,
                old(self).wf(),
                forall|j: int|
                    0 <= j < i ==> self.achievements.unlocked@[j] == spec_unlocked_after(
                        old(self).achievements.achievements@,
                        old(self).achievements.unlocked@,
                        *old(self),
                        combo_level,
                    )[j],
                forall|j: int|
                    i <= j < n ==> self.achievements.unlocked@[j] == old(
                        self,
                    ).achievements.unlocked@[j],
                newly@ == spec_newly_unlocked(
                    old(self).achievements.achievements@,
                    old(self).achievements.unlocked@,
                    *old(self),
                    combo_level,
                    i as int,
                ),
            decreases n - i,
        {
            let satisfied = match &self.achievements.achievements[i].requirement {
                AchievementRequirement::TotalCookies(a) => self.lifetime_cookies >= *a,
                AchievementRequirement::CookiesPerSecond(a) => self.cookies_per_second_milli
                    / 1000 >= *a,
                AchievementRequirement::Clicks(a) => self.click_count >= *a,
                AchievementRequirement::GoldenCookies(a) => self.golden_cookies_clicked >= *a,
                AchievementRequirement::BuildingCount(idx, c) => *idx < self.upgrades.len()
                    && self.upgrades[*idx].count >= *c,
                AchievementRequirement::PrestigeLevel(l) => self.prestige_level as u128 >= *l,
                AchievementRequirement::Combos(c) => combo_level >= *c,
            };
            proof {
                assert(satisfied == spec_req_satisfied(
                    old(self).achievements.achievements@[i as int].requirement,
                    *old(self),
                    combo_level,
                ));
            }
            if satisfied && !self.achievements.unlocked[i] {
                self.achievements.unlocked.set(i, true);
                let a = &self.achievements.achievements[i];
                newly.push((a.name.clone(), a.description.clone()));
            }
            i = i + 1;
        }
        newly
    }

    /// Percentage of the prestige requirement that the balance covers,
    /// capped at one hundred: the balance divided by a hundredth of
    /// the requirement.
    pub open spec fn spec_prestige_progress_percent(self) -> u128 {
        let req = sat128(spec_prestige_requirement(self.prestige_level as nat) as int);
        if self.cookies >= req {
            100
        } else {
            let unit = req / 100;
            if unit == 0 {
                100
            } else if self.cookies / unit > 100 {
                100
            } else {
                self.cookies / unit
            }
        }
    }

    /// Progress towards the next prestige, in whole percent.
    pub fn prestige_progress_percent(&self) -> (r: u128)
        ensures
            r == self.spec_prestige_progress_percent(),
    {
        let requirement = prestige_requirement(self.prestige_level);
        if self.cookies >= requirement {
            100
        } else {
            let unit = requirement / 100;
            if unit == 0 {
                100
            } else {
                let p = self.cookies / unit;
                if p > 100 {
                    100
                } else {
                    p
                }
            }
        }
    }

    /// Passive production in whole cookies per second, as shown to the
    /// player.
    pub fn cookies_per_second(&self) -> (r: u128)
        ensures
            r == self.cookies_per_second_milli / 1000,
    {
        self.cookies_per_second_milli / 1000
    }

    /// Whether the balance currently meets the prestige requirement.
    pub fn prestige_available(&self) -> (r: bool)
        ensures
            r == self.spec_prestige_available(),
    {
        let requirement = prestige_requirement(self.prestige_level);
        self.cookies >= requirement
    }
}

/// Unlocking is monotonic: an evaluation pass never re-locks an
/// unlocked achievement, and never changes the flag vector's length.
/// Together with the evaluator's contract (the new flags are exactly
/// `spec_unlocked_after`), a flag flips from unlocked back to locked
/// at no point in a game.
pub proof fn lemma_unlock_monotonic(
    ach: Seq<Achievement>,
    unl: Seq<bool>,
    s: GameState,
    combo_level: u128,
)
    ensures
        spec_unlocked_after(ach, unl, s, combo_level).len() == unl.len(),
        forall|i: int|
            0 <= i < unl.len() && unl[i] ==> spec_unlocked_after(ach, unl, s, combo_level)[i],
{
}

/// A prestige attempt below the requirement is determined by the
/// balance and the level alone, and a failed attempt changes neither
/// (its contract leaves the state bit-for-bit unchanged), so repeated
/// attempts below the requirement all fail, with the same error and
/// with no effect on the state.
pub proof fn lemma_prestige_failure_stable(s1: GameState, s2: GameState)
    requires
        !s1.spec_prestige_available(),
        s2.cookies == s1.cookies,
        s2.prestige_level == s1.prestige_level,
    ensures
        !s2.spec_prestige_available(),
{
}

/// The production rate depends only on each generator's yield and
/// count, not on its name or price.
pub proof fn lemma_rate_sum_congruent(a: Seq<Upgrade>, b: Seq<Upgrade>, level: nat)
    requires
        a.len() == b.len(),
        forall|i: int|
            0 <= i < a.len() ==> (#[trigger] a[i]).cps_milli == b[i].cps_milli && a[i].count
                == b[i].count,
    ensures
        spec_rate_sum(a, level) == spec_rate_sum(b, level),
    decreases a.len(),
{
    if a.len() > 0 {
        lemma_rate_sum_congruent(a.drop_last(), b.drop_last(), level);
    }
}

/// The click yield depends only on each multiplier's bonus and count.
pub proof fn lemma_click_yield_congruent(a: Seq<PowerUp>, b: Seq<PowerUp>)
    requires
        a.len() == b.len(),
        forall|i: int|
            0 <= i < a.len() ==> (#[trigger] a[i]).multiplier == b[i].multiplier && a[i].count
                == b[i].count,
    ensures
        spec_click_yield(a) == spec_click_yield(b),
    decreases a.len(),
{
    if a.len() > 0 {
        lemma_click_yield_congruent(a.drop_last(), b.drop_last());
    }
}

/// A multiplier list with every count at zero grants only the base
/// click of one cookie.
pub proof fn lemma_click_yield_all_zero(mults: Seq<PowerUp>)
    requires
        forall|i: int| 0 <= i < mults.len() ==> (#[trigger] mults[i]).count == 0,
    ensures
        spec_click_yield(mults) == 1,
    decreases mults.len(),
{
    if mults.len() > 0 {
        lemma_click_yield_all_zero(mults.drop_last());
        assert(mults.last().multiplier as nat * 0 == 0) by (nonlinear_arith);
    }
}

/// A generator list with every count at zero produces nothing.
pub proof fn lemma_rate_sum_all_zero(gens: Seq<Upgrade>, level: nat)
    requires
        forall|i: int| 0 <= i < gens.len() ==> (#[trigger] gens[i]).count == 0,
    ensures
        spec_rate_sum(gens, level) == 0,
    decreases gens.len(),
{
    if gens.len() > 0 {
        lemma_rate_sum_all_zero(gens.drop_last(), level);
        assert(gens.last().count == 0);
        assert(gens.last().cps_milli as nat * 0 * (100 + level) == 0) by (nonlinear_arith);
    }
}

} // verus!
