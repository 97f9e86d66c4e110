//! Snapshot persistence and catalog reconciliation.
//!
//! A `Snapshot` is the plain-data form of a game: scalars, plus the
//! owned counts and unlocked flags keyed by stable item names. Cached
//! prices and derived rates are deliberately absent — the catalog may
//! have changed since the snapshot was written, so `reconcile` always
//! rebuilds a state from the *current* catalog: every catalog item
//! takes the first count recorded under its name (or zero if the
//! snapshot does not know it), snapshot entries whose names no longer
//! exist are dropped without error, and every derived field is
//! recomputed. Writing the snapshot to durable storage, and parsing
//! one back, is the presentation layer's business; a snapshot that
//! fails to parse is simply treated as absent and a fresh game begins.

use crate::achievements::{Achievement, AchievementList};
use crate::catalog::{
    get_powerups, get_upgrade, powerup_names_distinct, upgrade_names_distinct, PowerUp, Upgrade,
};
use crate::achievements::{achievement_names_distinct, get_achievements};
use crate::cost_curve::generator_price;
use crate::cost_curve::multiplier_price;
use crate::state::{
    lemma_click_yield_congruent, lemma_rate_sum_congruent, recompute_click_yield, recompute_rate,
    GameState, PRESTIGE_POINT_DIVISOR,
};
use vstd::prelude::*;

verus! {

/// The persisted form of a game. Counts and flags are keyed by stable
/// item names; derived fields are not stored.
pub struct Snapshot {
    pub cookies: u128,
    pub lifetime_cookies: u128,
    pub cookies_per_click: u128,
    pub click_count: u128,
    pub golden_cookies_clicked: u128,
    pub prestige_level: u64,
    pub prestige_points: u128,
    /// Generator counts, as (name, owned count).
    pub upgrades: Vec<(String, u128)>,
    /// Multiplier counts, as (name, owned count).
    pub powerups: Vec<(String, u128)>,
    /// Achievement flags, as (name, unlocked).
    pub achievements: Vec<(String, bool)>,
}

impl Snapshot {
    /// The snapshot of a game that never began: all zero, nothing
    /// recorded.
    pub fn empty() -> (s: Snapshot)
        ensures
            s.cookies == 0,
            s.lifetime_cookies == 0,
            s.cookies_per_click == 0,
            s.click_count == 0,
            s.golden_cookies_clicked == 0,
            s.prestige_level == 0,
            s.prestige_points == 0,
            s.upgrades@.len() == 0,
            s.powerups@.len() == 0,
            s.achievements@.len() == 0,
    {
        Snapshot {
            cookies: 0,
            lifetime_cookies: 0,
            cookies_per_click: 0,
            click_count: 0,
            golden_cookies_clicked: 0,
            prestige_level: 0,
            prestige_points: 0,
            upgrades: Vec::new(),
            powerups: Vec::new(),
            achievements: Vec::new(),
        }
    }
}

/// The first value recorded under `name`, scanning entries in order.
pub open spec fn spec_lookup<V>(entries: Seq<(String, V)>, name: Seq<char>) -> Option<V>
    decreases entries.len(),
{
    if entries.len() == 0 {
        None
    } else if entries.first().0@ == name {
        Some(entries.first().1)
    } else {
        spec_lookup(entries.drop_first(), name)
    }
}

/// The first count recorded under `name`, defaulting to zero.
pub open spec fn spec_count_or_zero(entries: Seq<(String, u128)>, name: Seq<char>) -> u128 {
    match spec_lookup(entries, name) {
        Some(c) => c,
        None => 0,
    }
}

/// Find the first entry recorded under `name`.
fn find_entry<V: Copy>(entries: &Vec<(String, V)>, name: &String) -> (r: Option<V>)
    ensures
        r == spec_lookup(entries@, name@),
{
    proof {
        assert(entries@.skip(0) =~= entries@);
    }
    let mut i: usize = 0;
    while i < entries.len()
        invariant
            i <= entries@.len(),
            spec_lookup(entries@, name@) == spec_lookup(entries@.skip(i as int), name@),
        decreases entries@.len() - i,
    {
        proof {
            assert(entries@.skip(i as int).first() == entries@[i as int]);
        }
        if entries[i].0 == *name {
            return Some(entries[i].1);
        }
        proof {
            assert(entries@.skip(i as int).drop_first() =~= entries@.skip(i + 1));
        }
        i = i + 1;
    }
    None
}

/// Pairwise-distinct names among keyed entries.
pub open spec fn entry_names_distinct<V>(entries: Seq<(String, V)>) -> bool {
    forall|j: int, k: int| 0 <= j < k < entries.len() ==> entries[j].0@ != entries[k].0@
}

/// Under distinct names, looking an entry's own name up finds exactly
/// that entry.
pub proof fn lemma_lookup_self<V>(entries: Seq<(String, V)>, i: int)
    requires
        0 <= i < entries.len(),
        entry_names_distinct(entries),
    ensures
        spec_lookup(entries, entries[i].0@) == Some(entries[i].1),
    decreases entries.len(),
{
    if i > 0 {
        let rest = entries.drop_first();
        assert(forall|j: int| 0 <= j < rest.len() ==> rest[j] == entries[j + 1]);
        lemma_lookup_self(rest, i - 1);
    }
}

/// A name under which nothing is recorded looks up to nothing.
pub proof fn lemma_lookup_absent<V>(entries: Seq<(String, V)>, name: Seq<char>)
    requires
        forall|j: int| 0 <= j < entries.len() ==> (#[trigger] entries[j].0@) != name,
    ensures
        spec_lookup(entries, name) == None::<V>,
    decreases entries.len(),
{
    if entries.len() > 0 {
        let rest = entries.drop_first();
        assert(forall|j: int| 0 <= j < rest.len() ==> rest[j] == entries[j + 1]);
        lemma_lookup_absent(rest, name);
    }
}

/// What `GameState::save` records: every scalar the snapshot format
/// carries, and the counts and flags of the state's items, index for
/// index under the items' own names.
pub open spec fn spec_is_save_of(snap: Snapshot, s: GameState) -> bool {
    &&& snap.cookies == s.cookies
    &&& snap.lifetime_cookies == s.lifetime_cookies
    &&& snap.cookies_per_click == s.cookies_per_click
    &&& snap.click_count == s.click_count
    &&& snap.golden_cookies_clicked == s.golden_cookies_clicked
    &&& snap.prestige_level == s.prestige_level
    &&& snap.prestige_points == s.prestige_points
    &&& snap.upgrades@.len() == s.upgrades@.len()
    &&& forall|i: int|
        0 <= i < s.upgrades@.len() ==> (#[trigger] snap.upgrades@[i]).0@ == s.upgrades@[i].name@
            && snap.upgrades@[i].1 == s.upgrades@[i].count
    &&& snap.powerups@.len() == s.powerups@.len()
    &&& forall|i: int|
        0 <= i < s.powerups@.len() ==> (#[trigger] snap.powerups@[i]).0@ == s.powerups@[i].name@
            && snap.powerups@[i].1 == s.powerups@[i].count
    &&& snap.achievements@.len() == s.achievements.achievements@.len()
    &&& forall|i: int|
        0 <= i < s.achievements.achievements@.len() ==> (#[trigger] snap.achievements@[i]).0@
            == s.achievements.achievements@[i].name@ && snap.achievements@[i].1
            == s.achievements.unlocked@[i]
}

/// What `reconcile` builds from a snapshot and the current catalog:
/// the catalog's items in catalog order, each with the first count the
/// snapshot records under its name (zero when absent), achievement
/// flags intersected by name the same way, scalars copied (banked
/// prestige currency clamped to what the lifetime total supports, and
/// the run total starting fresh), and every derived field recomputed
/// (pinned through the well-formedness invariant).
pub open spec fn spec_reconciled(
    r: GameState,
    snap: Snapshot,
    up_cat: Seq<Upgrade>,
    pu_cat: Seq<PowerUp>,
    ach_cat: Seq<Achievement>,
) -> bool {
    &&& r.wf()
    &&& r.cookies == snap.cookies
    &&& r.lifetime_cookies == snap.lifetime_cookies
    &&& r.click_count == snap.click_count
    &&& r.golden_cookies_clicked == snap.golden_cookies_clicked
    &&& r.prestige_level == snap.prestige_level
    &&& r.prestige_points == if snap.prestige_points as nat <= snap.lifetime_cookies as nat
        / PRESTIGE_POINT_DIVISOR as nat {
        snap.prestige_points
    } else {
        (snap.lifetime_cookies as nat / PRESTIGE_POINT_DIVISOR as nat) as u128
    }
    &&& r.total_cookies_earned == 0
    &&& r.upgrades@.len() == up_cat.len()
    &&& forall|i: int|
        0 <= i < up_cat.len() ==> {
            &&& (#[trigger] r.upgrades@[i]).name == up_cat[i].name
            &&& r.upgrades@[i].base_cost == up_cat[i].base_cost
            &&& r.upgrades@[i].cps_milli == up_cat[i].cps_milli
            &&& r.upgrades@[i].tier == up_cat[i].tier
            &&& r.upgrades@[i].description == up_cat[i].description
            &&& r.upgrades@[i].count == spec_count_or_zero(snap.upgrades@, up_cat[i].name@)
        }
    &&& r.powerups@.len() == pu_cat.len()
    &&& forall|i: int|
        0 <= i < pu_cat.len() ==> {
            &&& (#[trigger] r.powerups@[i]).name == pu_cat[i].name
            &&& r.powerups@[i].base_cost == pu_cat[i].base_cost
            &&& r.powerups@[i].multiplier == pu_cat[i].multiplier
            &&& r.powerups@[i].description == pu_cat[i].description
            &&& r.powerups@[i].count == spec_count_or_zero(snap.powerups@, pu_cat[i].name@)
        }
    &&& r.achievements.achievements@ == ach_cat
    &&& r.achievements.unlocked@.len() == ach_cat.len()
    &&& forall|i: int|
        0 <= i < ach_cat.len() ==> (#[trigger] r.achievements.unlocked@[i]) == (spec_lookup(
            snap.achievements@,
            ach_cat[i].name@,
        ) == Some(true))
}

impl GameState {
    /// Capture this state as a snapshot. Derived fields are not
    /// recorded; they are rebuilt on load.
    pub fn save(&self) -> (snap: Snapshot)
        requires
            self.wf(),
        ensures
            spec_is_save_of(snap, *self),
    {
        let mut upgrades: Vec<(String, u128)> = Vec::new();
        let mut i: usize = 0;
        while i < self.upgrades.len()
            invariant
                i <= self.upgrades@.len(),
                upgrades@.len() == i,
                forall|j: int|
                    0 <= j < i ==> (#[trigger] upgrades@[j]).0@ == self.upgrades@[j].name@
                        && upgrades@[j].1 == self.upgrades@[j].count,
            decreases self.upgrades@.len() - i,
        {
            upgrades.push((self.upgrades[i].name.clone(), self.upgrades[i].count));
            i = i + 1;
        }
        let mut powerups: Vec<(String, u128)> = Vec::new();
        let mut k: usize = 0;
        while k < self.powerups.len()
            invariant
                k <= self.powerups@.len(),
                powerups@.len() == k,
                forall|j: int|
                    0 <= j < k ==> (#[trigger] powerups@[j]).0@ == self.powerups@[j].name@
                        && powerups@[j].1 == self.powerups@[j].count,
            decreases self.powerups@.len() - k,
        {
            powerups.push((self.powerups[k].name.clone(), self.powerups[k].count));
            k = k + 1;
        }
        let mut achievements: Vec<(String, bool)> = Vec::new();
        let mut a: usize = 0;
        while a < self.achievements.achievements.len()
            invariant
                self.achievements.wf(),
                a <= self.achievements.achievements@.len(),
                achievements@.len() == a,
                forall|j: int|
                    0 <= j < a ==> (#[trigger] achievements@[j]).0@
                        == self.achievements.achievements@[j].name@ && achievements@[j].1
                        == self.achievements.unlocked@[j],
            decreases self.achievements.achievements@.len() - a,
        {
            achievements.push(
                (self.achievements.achievements[a].name.clone(), self.achievements.unlocked[a]),
            );
            a = a + 1;
        }
        Snapshot {
            cookies: self.cookies,
            lifetime_cookies: self.lifetime_cookies,
            cookies_per_click: self.cookies_per_click,
            click_count: self.click_count,
            golden_cookies_clicked: self.golden_cookies_clicked,
            prestige_level: self.prestige_level,
            prestige_points: self.prestige_points,
            upgrades,
            powerups,
            achievements,
        }
    }
}

/// Merge a snapshot onto the given catalog, per the reconciliation
/// rules: see `spec_reconciled`. Total — a snapshot can never fail to
/// reconcile.
pub fn reconcile(
    snap: &Snapshot,
    up_cat: Vec<Upgrade>,
    pu_cat: Vec<PowerUp>,
    ach_cat: Vec<Achievement>,
) -> (r: GameState)
    ensures
        spec_reconciled(r, *snap, up_cat@, pu_cat@, ach_cat@),
{
    let mut upgrades: Vec<Upgrade> = Vec::new();
    let mut i: usize = 0;
    while i < up_cat.len()
        invariant
            i <= up_cat@.len(),
            upgrades@.len() == i,
            forall|j: int|
                0 <= j < i ==> {
                    &&& (#[trigger] upgrades@[j]).name == up_cat@[j].name
                    &&& upgrades@[j].base_cost == up_cat@[j].base_cost
                    &&& upgrades@[j].cps_milli == up_cat@[j].cps_milli
                    &&& upgrades@[j].tier == up_cat@[j].tier
                    &&& upgrades@[j].description == up_cat@[j].description
                    &&& upgrades@[j].count == spec_count_or_zero(
                        snap.upgrades@,
                        up_cat@[j].name@,
                    )
                    &&& upgrades@[j].price_ok()
                },
        decreases up_cat@.len() - i,
    {
        let it = &up_cat[i];
        let count = match find_entry(&snap.upgrades, &it.name) {
            Some(c) => c,
            None => 0,
        };
        let cost = generator_price(it.base_cost, count, it.tier);
        upgrades.push(
            Upgrade {
                name: it.name.clone(),
                base_cost: it.base_cost,
                cost,
                cps_milli: it.cps_milli,
                count,
                description: it.description.clone(),
                tier: it.tier,
            },
        );
        i = i + 1;
    }
    let mut powerups: Vec<PowerUp> = Vec::new();
    let mut k: usize = 0;
    while k < pu_cat.len()
        invariant
            k <= pu_cat@.len(),
            powerups@.len() == k,
            forall|j: int|
                0 <= j < k ==> {
                    &&& (#[trigger] powerups@[j]).name == pu_cat@[j].name
                    &&& powerups@[j].base_cost == pu_cat@[j].base_cost
                    &&& powerups@[j].multiplier == pu_cat@[j].multiplier
                    &&& powerups@[j].description == pu_cat@[j].description
                    &&& powerups@[j].count == spec_count_or_zero(
                        snap.powerups@,
                        pu_cat@[j].name@,
                    )
                    &&& powerups@[j].price_ok()
                },
        decreases pu_cat@.len() - k,
    {
        let it = &pu_cat[k];
        let count = match find_entry(&snap.powerups, &it.name) {
            Some(c) => c,
            None => 0,
        };
        let cost = multiplier_price(it.base_cost, count);
        powerups.push(
            PowerUp {
                name: it.name.clone(),
                base_cost: it.base_cost,
                cost,
                multiplier: it.multiplier,
                count,
                description: it.description.clone(),
            },
        );
        k = k + 1;
    }
    let mut unlocked: Vec<bool> = Vec::new();
    let mut a: usize = 0;
    while a < ach_cat.len()
        invariant
            a <= ach_cat@.len(),
            unlocked@.len() == a,
            forall|j: int|
                0 <= j < a ==> (#[trigger] unlocked@[j]) == (spec_lookup(
                    snap.achievements@,
                    ach_cat@[j].name@,
                ) == Some(true)),
        decreases ach_cat@.len() - a,
    {
        let flag = match find_entry(&snap.achievements, &ach_cat[a].name) {
            Some(b) => b,
            None => false,
        };
        unlocked.push(flag);
        a = a + 1;
    }
    let max_points = snap.lifetime_cookies / PRESTIGE_POINT_DIVISOR;
    let prestige_points = if snap.prestige_points <= max_points {
        snap.prestige_points
    } else {
        max_points
    };
    let cookies_per_second_milli = recompute_rate(&upgrades, snap.prestige_level);
    let cookies_per_click = recompute_click_yield(&powerups);
    GameState {
        cookies: snap.cookies,
        total_cookies_earned: 0,
        cookies_per_second_milli,
        cookies_per_click,
        upgrades,
        powerups,
        prestige_level: snap.prestige_level,
        prestige_points,
        lifetime_cookies: snap.lifetime_cookies,
        click_count: snap.click_count,
        golden_cookies_clicked: snap.golden_cookies_clicked,
        achievements: AchievementList { achievements: ach_cat, unlocked },
    }
}

/// Rebuild a game from a snapshot against the current catalog: the
/// result holds exactly the current catalog's items (41 generators, 50
/// multipliers, 59 achievements, reconciliation keys pairwise
/// distinct), counts and flags taken from the snapshot by name, banked
/// prestige currency clamped to what the restored lifetime total
/// supports, and every derived field recomputed.
pub fn load(snap: &Snapshot) -> (r: GameState)
    ensures
        r.wf(),
        r.cookies == snap.cookies,
        r.lifetime_cookies == snap.lifetime_cookies,
        r.click_count == snap.click_count,
        r.golden_cookies_clicked == snap.golden_cookies_clicked,
        r.prestige_level == snap.prestige_level,
        r.prestige_points == if snap.prestige_points as nat <= snap.lifetime_cookies as nat
            / PRESTIGE_POINT_DIVISOR as nat {
            snap.prestige_points
        } else {
            (snap.lifetime_cookies as nat / PRESTIGE_POINT_DIVISOR as nat) as u128
        },
        r.total_cookies_earned == 0,
        r.upgrades@.len() == 41,
        r.powerups@.len() == 50,
        r.achievements.achievements@.len() == 59,
        upgrade_names_distinct(r.upgrades@),
        powerup_names_distinct(r.powerups@),
        achievement_names_distinct(r.achievements.achievements@),
        forall|i: int|
            0 <= i < r.upgrades@.len() ==> (#[trigger] r.upgrades@[i]).count
                == spec_count_or_zero(snap.upgrades@, r.upgrades@[i].name@),
        forall|i: int|
            0 <= i < r.powerups@.len() ==> (#[trigger] r.powerups@[i]).count
                == spec_count_or_zero(snap.powerups@, r.powerups@[i].name@),
        forall|i: int|
            0 <= i < r.achievements.unlocked@.len() ==> (#[trigger] r.achievements.unlocked@[i])
                == (spec_lookup(
                snap.achievements@,
                r.achievements.achievements@[i].name@,
            ) == Some(true)),
{
    let up_cat = get_upgrade();
    let pu_cat = get_powerups();
    let ach_cat = get_achievements().achievements;
    let ghost gu = up_cat@;
    let ghost gp = pu_cat@;
    let r = reconcile(snap, up_cat, pu_cat, ach_cat);
    proof {
        lemma_reconciled_keeps_distinct_names(r, gu, gp);
    }
    r
}

/// The reconciled items carry the catalog's names index for index, so
/// the catalog's key uniqueness carries over to the rebuilt state.
proof fn lemma_reconciled_keeps_distinct_names(r: GameState, gu: Seq<Upgrade>, gp: Seq<PowerUp>)
    requires
        r.upgrades@.len() == gu.len(),
        forall|i: int| 0 <= i < gu.len() ==> (#[trigger] r.upgrades@[i]).name == gu[i].name,
        upgrade_names_distinct(gu),
        r.powerups@.len() == gp.len(),
        forall|i: int| 0 <= i < gp.len() ==> (#[trigger] r.powerups@[i]).name == gp[i].name,
        powerup_names_distinct(gp),
    ensures
        upgrade_names_distinct(r.upgrades@),
        powerup_names_distinct(r.powerups@),
{
    assert forall|j: int, k: int| 0 <= j < k < r.upgrades@.len() implies r.upgrades@[j].name@
        != r.upgrades@[k].name@ by {
        assert(r.upgrades@[j].name == gu[j].name);
        assert(r.upgrades@[k].name == gu[k].name);
        assert(gu[j].name@ != gu[k].name@);
    }
    assert forall|j: int, k: int| 0 <= j < k < r.powerups@.len() implies r.powerups@[j].name@
        != r.powerups@[k].name@ by {
        assert(r.powerups@[j].name == gp[j].name);
        assert(r.powerups@[k].name == gp[k].name);
        assert(gp[j].name@ != gp[k].name@);
    }
}

impl Default for GameState {
    /// A fresh game: zero balances and counters, the current catalog's
    /// items (keys pairwise distinct) at count zero and base price,
    /// production zero, a bare click of one cookie, and nothing
    /// unlocked.
    fn default() -> (s: GameState)
        ensures
            s.wf(),
            s.cookies == 0,
            s.total_cookies_earned == 0,
            s.lifetime_cookies == 0,
            s.click_count == 0,
            s.golden_cookies_clicked == 0,
            s.prestige_level == 0,
            s.prestige_points == 0,
            s.cookies_per_second_milli == 0,
            s.cookies_per_click == 1,
            s.upgrades@.len() == 41,
            s.powerups@.len() == 50,
            s.achievements.achievements@.len() == 59,
            upgrade_names_distinct(s.upgrades@),
            powerup_names_distinct(s.powerups@),
            achievement_names_distinct(s.achievements.achievements@),
            forall|i: int| 0 <= i < s.upgrades@.len() ==> (#[trigger] s.upgrades@[i]).count == 0,
            forall|i: int| 0 <= i < s.powerups@.len() ==> (#[trigger] s.powerups@[i]).count == 0,
            forall|i: int|
                0 <= i < s.achievements.unlocked@.len() ==> !(
                #[trigger] s.achievements.unlocked@[i]),
    {
        let empty = Snapshot::empty();
        let up_cat = get_upgrade();
        let pu_cat = get_powerups();
        let ach_cat = get_achievements().achievements;
        let ghost gu = up_cat@;
        let ghost gp = pu_cat@;
        let s = reconcile(&empty, up_cat, pu_cat, ach_cat);
        proof {
            lemma_reconciled_keeps_distinct_names(s, gu, gp);
            assert forall|i: int| 0 <= i < s.upgrades@.len() implies (
            #[trigger] s.upgrades@[i]).count == 0 by {
                assert(spec_lookup(empty.upgrades@, s.upgrades@[i].name@) == None::<u128>);
            }
            assert forall|i: int| 0 <= i < s.powerups@.len() implies (
            #[trigger] s.powerups@[i]).count == 0 by {
                assert(spec_lookup(empty.powerups@, s.powerups@[i].name@) == None::<u128>);
            }
            crate::state::lemma_rate_sum_all_zero(s.upgrades@, s.prestige_level as nat);
            crate::state::lemma_click_yield_all_zero(s.powerups@);
        }
        s
    }
}

/// Saving and loading against an unchanged catalog reproduces the
/// game: for any snapshot that `save` may produce from a well-formed
/// state whose items mirror the catalog (names unique), any state that
/// `reconcile` may build back from it carries the same balance,
/// lifetime totals, counters, prestige progress, item counts and
/// prices, derived fields, and unlocked flags.
pub proof fn lemma_save_load_round_trip(
    s: GameState,
    snap: Snapshot,
    r: GameState,
    up_cat: Seq<Upgrade>,
    pu_cat: Seq<PowerUp>,
    ach_cat: Seq<Achievement>,
)
    requires
        s.wf(),
        spec_is_save_of(snap, s),
        spec_reconciled(r, snap, up_cat, pu_cat, ach_cat),
        s.upgrades@.len() == up_cat.len(),
        forall|i: int|
            0 <= i < up_cat.len() ==> (#[trigger] s.upgrades@[i]).name@ == up_cat[i].name@
                && s.upgrades@[i].base_cost == up_cat[i].base_cost && s.upgrades@[i].cps_milli
                == up_cat[i].cps_milli && s.upgrades@[i].tier == up_cat[i].tier,
        s.powerups@.len() == pu_cat.len(),
        forall|i: int|
            0 <= i < pu_cat.len() ==> (#[trigger] s.powerups@[i]).name@ == pu_cat[i].name@
                && s.powerups@[i].base_cost == pu_cat[i].base_cost && s.powerups@[i].multiplier
                == pu_cat[i].multiplier,
        s.achievements.achievements@.len() == ach_cat.len(),
        forall|i: int|
            0 <= i < ach_cat.len() ==> (#[trigger] s.achievements.achievements@[i]).name@
                == ach_cat[i].name@,
        upgrade_names_distinct(up_cat),
        powerup_names_distinct(pu_cat),
        achievement_names_distinct(ach_cat),
    ensures
        r.cookies == s.cookies,
        r.lifetime_cookies == s.lifetime_cookies,
        r.click_count == s.click_count,
        r.golden_cookies_clicked == s.golden_cookies_clicked,
        r.prestige_level == s.prestige_level,
        r.prestige_points == s.prestige_points,
        forall|i: int|
            0 <= i < up_cat.len() ==> (#[trigger] r.upgrades@[i]).count == s.upgrades@[i].count
                && r.upgrades@[i].cost == s.upgrades@[i].cost,
        forall|i: int|
            0 <= i < pu_cat.len() ==> (#[trigger] r.powerups@[i]).count == s.powerups@[i].count
                && r.powerups@[i].cost == s.powerups@[i].cost,
        r.cookies_per_second_milli == s.cookies_per_second_milli,
        r.cookies_per_click == s.cookies_per_click,
        r.achievements.unlocked@ == s.achievements.unlocked@,
{
    assert forall|i: int| 0 <= i < up_cat.len() implies (#[trigger] r.upgrades@[i]).count
        == s.upgrades@[i].count && r.upgrades@[i].cost == s.upgrades@[i].cost by {
        assert(entry_names_distinct(snap.upgrades@));
        lemma_lookup_self(snap.upgrades@, i);
        assert(snap.upgrades@[i].0@ == up_cat[i].name@);
        assert(r.upgrades@[i].count == snap.upgrades@[i].1);
        assert(s.upgrades@[i].price_ok());
        assert(r.upgrades@[i].price_ok());
    }
    assert forall|i: int| 0 <= i < pu_cat.len() implies (#[trigger] r.powerups@[i]).count
        == s.powerups@[i].count && r.powerups@[i].cost == s.powerups@[i].cost by {
        assert(entry_names_distinct(snap.powerups@));
        lemma_lookup_self(snap.powerups@, i);
        assert(snap.powerups@[i].0@ == pu_cat[i].name@);
        assert(r.powerups@[i].count == snap.powerups@[i].1);
        assert(s.powerups@[i].price_ok());
        assert(r.powerups@[i].price_ok());
    }
    lemma_rate_sum_congruent(r.upgrades@, s.upgrades@, s.prestige_level as nat);
    lemma_click_yield_congruent(r.powerups@, s.powerups@);
    assert forall|i: int| 0 <= i < ach_cat.len() implies (#[trigger] r.achievements.unlocked@[i])
        == s.achievements.unlocked@[i] by {
        assert(entry_names_distinct(snap.achievements@));
        lemma_lookup_self(snap.achievements@, i);
        assert(snap.achievements@[i].0@ == ach_cat[i].name@);
    }
    assert(r.achievements.unlocked@ =~= s.achievements.unlocked@);
}

/// Reconciling with an added catalog item: a catalog entry whose name
/// the snapshot does not record comes out fresh — count zero, and its
/// price validly computed, which at count zero is its base cost.
pub proof fn lemma_reconcile_added_item(
    r: GameState,
    snap: Snapshot,
    up_cat: Seq<Upgrade>,
    pu_cat: Seq<PowerUp>,
    ach_cat: Seq<Achievement>,
    i: int,
)
    requires
        spec_reconciled(r, snap, up_cat, pu_cat, ach_cat),
        0 <= i < up_cat.len(),
        forall|j: int|
            0 <= j < snap.upgrades@.len() ==> (#[trigger] snap.upgrades@[j].0@) != up_cat[
                i].name@,
    ensures
        r.upgrades@[i].count == 0,
        r.upgrades@[i].cost == up_cat[i].base_cost,
{
    lemma_lookup_absent(snap.upgrades@, up_cat[i].name@);
    assert(r.upgrades@[i].price_ok());
}

/// Reconciling with a removed catalog item: entries the snapshot still
/// records under names the catalog no longer knows are dropped without
/// error — the reconciled state holds exactly the catalog's items,
/// whatever else the snapshot carries.
pub proof fn lemma_reconcile_drops_unknown(
    r: GameState,
    snap: Snapshot,
    up_cat: Seq<Upgrade>,
    pu_cat: Seq<PowerUp>,
    ach_cat: Seq<Achievement>,
)
    requires
        spec_reconciled(r, snap, up_cat, pu_cat, ach_cat),
    ensures
        r.upgrades@.len() == up_cat.len(),
        forall|i: int|
            0 <= i < up_cat.len() ==> (#[trigger] r.upgrades@[i]).name == up_cat[i].name,
        r.powerups@.len() == pu_cat.len(),
        forall|i: int|
            0 <= i < pu_cat.len() ==> (#[trigger] r.powerups@[i]).name == pu_cat[i].name,
        r.achievements.achievements@ == ach_cat,
{
}

} // verus!
