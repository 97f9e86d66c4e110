//! The item catalog: generator and multiplier definitions.
//!
//! Catalog entries are pure data. A generator (`Upgrade`) produces
//! passive currency; its per-unit yield is held in thousandths of a
//! currency unit per second so fractional rates need no floating
//! point. A multiplier (`PowerUp`) permanently raises the manual-click
//! yield. Each entry caches its current purchase price, which must
//! always equal the cost curve applied to its owned count; stable item
//! names are the keys under which saved counts are reconciled, so the
//! catalog is expected to keep them unique (checked by
//! `upgrade_names_unique` / `powerup_names_unique`).

use crate::cost_curve::{
    generator_price, multiplier_price, spec_generator_price, spec_multiplier_price,
};
use crate::math::sat128;
use vstd::prelude::*;

verus! {

/// A generator: produces `cps_milli` thousandths of a cookie per
/// second for each owned unit.
pub struct Upgrade {
    pub name: String,
    pub base_cost: u128,
    pub cost: u128,
    pub cps_milli: u128,
    pub count: u128,
    pub description: String,
    pub tier: u128,
}

/// A multiplier: each owned unit permanently adds `multiplier` cookies
/// to the yield of a manual click.
pub struct PowerUp {
    pub name: String,
    pub base_cost: u128,
    pub cost: u128,
    pub multiplier: u128,
    pub count: u128,
    pub description: String,
}

impl Upgrade {
    /// The cached price is exactly the cost curve at the owned count.
    pub open spec fn price_ok(self) -> bool {
        self.cost == sat128(
            spec_generator_price(self.base_cost as nat, self.count as nat, self.tier as nat) as int,
        )
    }

    /// Recompute this generator's purchase price from the cost curve.
    pub fn calculate_cost(&self) -> (r: u128)
        ensures
            r == sat128(
                spec_generator_price(
                    self.base_cost as nat,
                    self.count as nat,
                    self.tier as nat,
                ) as int,
            ),
    {
        generator_price(self.base_cost, self.count, self.tier)
    }
}

impl PowerUp {
    /// The cached price is exactly the cost curve at the owned count.
    pub open spec fn price_ok(self) -> bool {
        self.cost == sat128(
            spec_multiplier_price(self.base_cost as nat, self.count as nat) as int,
        )
    }

    /// Recompute this multiplier's purchase price from the cost curve.
    pub fn calculate_cost(&self) -> (r: u128)
        ensures
            r == sat128(
                spec_multiplier_price(self.base_cost as nat, self.count as nat) as int,
            ),
    {
        multiplier_price(self.base_cost, self.count)
    }
}

/// Pairwise-distinct generator names.
pub open spec fn upgrade_names_distinct(s: Seq<Upgrade>) -> bool {
    forall|j: int, k: int| 0 <= j < k < s.len() ==> s[j].name@ != s[k].name@
}

/// Pairwise-distinct multiplier names.
pub open spec fn powerup_names_distinct(s: Seq<PowerUp>) -> bool {
    forall|j: int, k: int| 0 <= j < k < s.len() ==> s[j].name@ != s[k].name@
}

/// Validate that no two generators share a reconciliation key.
pub fn upgrade_names_unique(v: &Vec<Upgrade>) -> (r: bool)
    ensures
        r == upgrade_names_distinct(v@),
{
    let mut j: usize = 0;
    while j < v.len()
        invariant
            j <= v@.len(),
            forall|a: int, b: int| 0 <= a < b < v@.len() && a < j ==> v@[a].name@ != v@[b].name@,
        decreases v@.len() - j,
    {
        let mut k: usize = j + 1;
        while k < v.len()
            invariant
                j < k <= v@.len() || (j + 1 == k && k > v@.len()),
                j < v@.len(),
                forall|b: int| j < b < k ==> v@[j as int].name@ != v@[b].name@,
            decreases v@.len() - k,
        {
            if v[j].name == v[k].name {
                return false;
            }
            k = k + 1;
        }
        j = j + 1;
    }
    true
}

/// Validate that no two multipliers share a reconciliation key.
pub fn powerup_names_unique(v: &Vec<PowerUp>) -> (r: bool)
    ensures
        r == powerup_names_distinct(v@),
{
    let mut j: usize = 0;
    while j < v.len()
        invariant
            j <= v@.len(),
            forall|a: int, b: int| 0 <= a < b < v@.len() && a < j ==> v@[a].name@ != v@[b].name@,
        decreases v@.len() - j,
    {
        let mut k: usize = j + 1;
        while k < v.len()
            invariant
                j < k <= v@.len() || (j + 1 == k && k > v@.len()),
                j < v@.len(),
                forall|b: int| j < b < k ==> v@[j as int].name@ != v@[b].name@,
            decreases v@.len() - k,
        {
            if v[j].name == v[k].name {
                return false;
            }
            k = k + 1;
        }
        j = j + 1;
    }
    true
}

/// Build one catalog generator, fresh at count zero.
fn up(name: &str, base: u128, cps_milli: u128, tier: u128, description: &str) -> (u: Upgrade)
    ensures
        u.name@ == name@,
        u.base_cost == base,
        u.cost == base,
        u.cps_milli == cps_milli,
        u.count == 0,
        u.tier == tier,
        u.description@ == description@,
{
    Upgrade {
        name: name.to_owned(),
        base_cost: base,
        cost: base,
        cps_milli,
        count: 0,
        description: description.to_owned(),
        tier,
    }
}

/// Build one catalog multiplier, fresh at count zero.
fn pu(name: &str, base: u128, multiplier: u128, description: &str) -> (p: PowerUp)
    ensures
        p.name@ == name@,
        p.base_cost == base,
        p.cost == base,
        p.multiplier == multiplier,
        p.count == 0,
        p.description@ == description@,
{
    PowerUp {
        name: name.to_owned(),
        base_cost: base,
        cost: base,
        multiplier,
        count: 0,
        description: description.to_owned(),
    }
}

/// The catalog position of a generator name, or a negative value
/// for a name the catalog does not carry; each name maps to exactly
/// one position, which is how the names are proved pairwise distinct.
spec fn upgrade_name_slot(s: Seq<char>) -> int {
    if s == "Curseur"@ {
        0
    } else if s == "Grand-mere"@ {
        1
    } else if s == "Ferme"@ {
        2
    } else if s == "Mine"@ {
        3
    } else if s == "Usine"@ {
        4
    } else if s == "Banque"@ {
        5
    } else if s == "Temple"@ {
        6
    } else if s == "Tour de magie"@ {
        7
    } else if s == "Portail"@ {
        8
    } else if s == "Machine temporelle"@ {
        9
    } else if s == "Condensateur"@ {
        10
    } else if s == "Prisme"@ {
        11
    } else if s == "Chancemaker"@ {
        12
    } else if s == "Fractale"@ {
        13
    } else if s == "Console JS"@ {
        14
    } else if s == "Generateur d'entropie"@ {
        15
    } else if s == "Simulateur de realite"@ {
        16
    } else if s == "Distorseur quantique"@ {
        17
    } else if s == "Forge cosmique"@ {
        18
    } else if s == "Matrice probabiliste"@ {
        19
    } else if s == "Singularite"@ {
        20
    } else if s == "Collapseur stellaire"@ {
        21
    } else if s == "Source primordiale"@ {
        22
    } else if s == "Nexus dimensionnel"@ {
        23
    } else if s == "Moteur de l'existence"@ {
        24
    } else if s == "Catalyseur d'univers"@ {
        25
    } else if s == "Coeur du multivers"@ {
        26
    } else if s == "Tisseur de realites"@ {
        27
    } else if s == "Dieu mathematique"@ {
        28
    } else if s == "Oracle temporel"@ {
        29
    } else if s == "Entite absolue"@ {
        30
    } else if s == "Architecte des vides"@ {
        31
    } else if s == "Origine"@ {
        32
    } else if s == "Essence primale"@ {
        33
    } else if s == "Architecte dimensionnel"@ {
        34
    } else if s == "Volonte cosmique"@ {
        35
    } else if s == "Gardien eternel"@ {
        36
    } else if s == "Maitre du chaos"@ {
        37
    } else if s == "Tisseur de probabilites"@ {
        38
    } else if s == "Forgeron d'etoiles"@ {
        39
    } else if s == "Demiurge"@ {
        40
    } else {
        -1
    }
}

/// The current generator catalog.
#[verifier::rlimit(60)]
pub fn get_upgrade() -> (v: Vec<Upgrade>)
    ensures
        v@.len() == 41,
        forall|i: int|
            0 <= i < v@.len() ==> (#[trigger] v@[i]).count == 0 && v@[i].cost == v@[i].base_cost
                && v@[i].cps_milli >= 1,
        upgrade_names_distinct(v@),
{
    let mut v: Vec<Upgrade> = Vec::new();
    v.push(up("Curseur", 15, 100, 0, "Produit 0.1 cookies/sec"));
    v.push(up("Grand-mere", 100, 1_000, 0, "Produit 1 cookies/sec"));
    v.push(up("Ferme", 1_100, 8_000, 0, "Produit 8 cookies/sec"));
    v.push(up("Mine", 12_000, 47_000, 0, "Produit 47 cookies/sec"));
    v.push(up("Usine", 130_000, 260_000, 0, "Produit 260 cookies/sec"));
    v.push(up("Banque", 1_400_000, 1_400_000, 0, "Produit 1_400 cookies/sec"));
    v.push(up("Temple", 20_000_000, 7_800_000, 0, "Produit 7_800 cookies/sec"));
    v.push(up("Tour de magie", 330_000_000, 44_000_000, 0, "Produit 44_000 cookies/sec"));
    v.push(up("Portail", 5_100_000_000, 260_000_000, 0, "Produit 260_000 cookies/sec"));
    v.push(up("Machine temporelle", 75_000_000_000, 1_600_000_000, 0, "Produit 1_600_000 cookies/sec"));
    v.push(up("Condensateur", 1_000_000_000_000, 10_000_000_000, 1, "Produit 10_000_000 cookies/sec"));
    v.push(up("Prisme", 14_000_000_000_000, 65_000_000_000, 1, "Produit 65_000_000 cookies/sec"));
    v.push(up("Chancemaker", 170_000_000_000_000, 430_000_000_000, 1, "Produit 430_000_000 cookies/sec"));
    v.push(up("Fractale", 2_100_000_000_000_000, 2_900_000_000_000, 1, "Produit 2_900_000_000 cookies/sec"));
    v.push(up("Console JS", 26_000_000_000_000_000, 21_000_000_000_000, 1, "Produit 21_000_000_000 cookies/sec"));
    v.push(up("Generateur d'entropie", 50_000_000_000_000_000, 60_000_000_000_000, 2, "Produit 60_000_000_000 cookies/sec"));
    v.push(up("Simulateur de realite", 80_000_000_000_000_000, 120_000_000_000_000, 2, "Produit 120_000_000_000 cookies/sec"));
    v.push(up("Distorseur quantique", 150_000_000_000_000_000, 400_000_000_000_000, 2, "Produit 400_000_000_000 cookies/sec"));
    v.push(up("Forge cosmique", 250_000_000_000_000_000, 900_000_000_000_000, 2, "Produit 900_000_000_000 cookies/sec"));
    v.push(up("Matrice probabiliste", 500_000_000_000_000_000, 3_000_000_000_000_000, 2, "Produit 3_000_000_000_000 cookies/sec"));
    v.push(up("Singularite", 900_000_000_000_000_000, 7_000_000_000_000_000, 2, "Produit 7_000_000_000_000 cookies/sec"));
    v.push(up("Collapseur stellaire", 1_500_000_000_000_000_000, 20_000_000_000_000_000, 3, "Produit 20_000_000_000_000 cookies/sec"));
    v.push(up("Source primordiale", 3_000_000_000_000_000_000, 55_000_000_000_000_000, 3, "Produit 55_000_000_000_000 cookies/sec"));
    v.push(up("Nexus dimensionnel", 6_000_000_000_000_000_000, 150_000_000_000_000_000, 3, "Produit 150_000_000_000_000 cookies/sec"));
    v.push(up("Moteur de l'existence", 10_000_000_000_000_000_000, 400_000_000_000_000_000, 3, "Produit 400_000_000_000_000 cookies/sec"));
    v.push(up("Catalyseur d'univers", 25_000_000_000_000_000_000, 1_200_000_000_000_000_000, 3, "Produit 1_200_000_000_000_000 cookies/sec"));
    v.push(up("Coeur du multivers", 50_000_000_000_000_000_000, 3_500_000_000_000_000_000, 3, "Produit 3_500_000_000_000_000 cookies/sec"));
    v.push(up("Tisseur de realites", 120_000_000_000_000_000_000, 10_000_000_000_000_000_000, 4, "Produit 10_000_000_000_000_000 cookies/sec"));
    v.push(up("Dieu mathematique", 200_000_000_000_000_000_000, 30_000_000_000_000_000_000, 4, "Produit 30_000_000_000_000_000 cookies/sec"));
    v.push(up("Oracle temporel", 500_000_000_000_000_000_000, 90_000_000_000_000_000_000, 4, "Produit 90_000_000_000_000_000 cookies/sec"));
    v.push(up("Entite absolue", 1_000_000_000_000_000_000_000, 250_000_000_000_000_000_000, 4, "Produit 250_000_000_000_000_000 cookies/sec"));
    v.push(up("Architecte des vides", 2_500_000_000_000_000_000_000, 700_000_000_000_000_000_000, 5, "Produit 700_000_000_000_000_000 cookies/sec"));
    v.push(up("Origine", 5_000_000_000_000_000_000_000, 2_000_000_000_000_000_000_000, 5, "Produit 2_000_000_000_000_000_000 cookies/sec"));
    v.push(up("Essence primale", 12_000_000_000_000_000_000_000, 6_000_000_000_000_000_000_000, 5, "Produit 6_000_000_000_000_000_000 cookies/sec"));
    v.push(up("Architecte dimensionnel", 25_000_000_000_000_000_000_000, 15_000_000_000_000_000_000_000, 5, "Produit 15_000_000_000_000_000_000 cookies/sec"));
    v.push(up("Volonte cosmique", 60_000_000_000_000_000_000_000, 45_000_000_000_000_000_000_000, 5, "Produit 45_000_000_000_000_000_000 cookies/sec"));
    v.push(up("Gardien eternel", 125_000_000_000_000_000_000_000, 120_000_000_000_000_000_000_000, 6, "Produit 120_000_000_000_000_000_000 cookies/sec"));
    v.push(up("Maitre du chaos", 300_000_000_000_000_000_000_000, 350_000_000_000_000_000_000_000, 6, "Produit 350_000_000_000_000_000_000 cookies/sec"));
    v.push(up("Tisseur de probabilites", 600_000_000_000_000_000_000_000, 900_000_000_000_000_000_000_000, 6, "Produit 900_000_000_000_000_000_000 cookies/sec"));
    v.push(up("Forgeron d'etoiles", 1_500_000_000_000_000_000_000_000, 2_700_000_000_000_000_000_000_000, 7, "Produit 2_700_000_000_000_000_000_000 cookies/sec"));
    v.push(up("Demiurge", 3_000_000_000_000_000_000_000_000, 7_500_000_000_000_000_000_000_000, 7, "Produit 7_500_000_000_000_000_000_000 cookies/sec"));
    proof {
        reveal_strlit("Curseur");
        reveal_strlit("Grand-mere");
        reveal_strlit("Ferme");
        reveal_strlit("Mine");
        reveal_strlit("Usine");
        reveal_strlit("Banque");
        reveal_strlit("Temple");
        reveal_strlit("Tour de magie");
        reveal_strlit("Portail");
        reveal_strlit("Machine temporelle");
        reveal_strlit("Condensateur");
        reveal_strlit("Prisme");
        reveal_strlit("Chancemaker");
        reveal_strlit("Fractale");
        reveal_strlit("Console JS");
        reveal_strlit("Generateur d'entropie");
        reveal_strlit("Simulateur de realite");
        reveal_strlit("Distorseur quantique");
        reveal_strlit("Forge cosmique");
        reveal_strlit("Matrice probabiliste");
        reveal_strlit("Singularite");
        reveal_strlit("Collapseur stellaire");
        reveal_strlit("Source primordiale");
        reveal_strlit("Nexus dimensionnel");
        reveal_strlit("Moteur de l'existence");
        reveal_strlit("Catalyseur d'univers");
        reveal_strlit("Coeur du multivers");
        reveal_strlit("Tisseur de realites");
        reveal_strlit("Dieu mathematique");
        reveal_strlit("Oracle temporel");
        reveal_strlit("Entite absolue");
        reveal_strlit("Architecte des vides");
        reveal_strlit("Origine");
        reveal_strlit("Essence primale");
        reveal_strlit("Architecte dimensionnel");
        reveal_strlit("Volonte cosmique");
        reveal_strlit("Gardien eternel");
        reveal_strlit("Maitre du chaos");
        reveal_strlit("Tisseur de probabilites");
        reveal_strlit("Forgeron d'etoiles");
        reveal_strlit("Demiurge");
        assert forall|i: int| 0 <= i < v@.len() implies {
            &&& #[trigger] upgrade_name_slot(v@[i].name@) == i
            &&& v@[i].count == 0
            &&& v@[i].cost == v@[i].base_cost
            &&& v@[i].cps_milli >= 1
        } by {
            if i == 0 {
                assert(v@[0].name@ == "Curseur"@);
                assert(upgrade_name_slot("Curseur"@) == 0);
            } else if i == 1 {
                assert(v@[1].name@ == "Grand-mere"@);
                assert(upgrade_name_slot("Grand-mere"@) == 1);
            } else if i == 2 {
                assert(v@[2].name@ == "Ferme"@);
                assert(upgrade_name_slot("Ferme"@) == 2);
            } else if i == 3 {
                assert(v@[3].name@ == "Mine"@);
                assert(upgrade_name_slot("Mine"@) == 3);
            } else if i == 4 {
                assert(v@[4].name@ == "Usine"@);
                assert("Usine"@[0] != "Ferme"@[0]);
                assert(upgrade_name_slot("Usine"@) == 4);
            } else if i == 5 {
                assert(v@[5].name@ == "Banque"@);
                assert(upgrade_name_slot("Banque"@) == 5);
            } else if i == 6 {
                assert(v@[6].name@ == "Temple"@);
                assert("Temple"@[0] != "Banque"@[0]);
                assert(upgrade_name_slot("Temple"@) == 6);
            } else if i == 7 {
                assert(v@[7].name@ == "Tour de magie"@);
                assert(upgrade_name_slot("Tour de magie"@) == 7);
            } else if i == 8 {
                assert(v@[8].name@ == "Portail"@);
                assert("Portail"@[0] != "Curseur"@[0]);
                assert(upgrade_name_slot("Portail"@) == 8);
            } else if i == 9 {
                assert(v@[9].name@ == "Machine temporelle"@);
                assert(upgrade_name_slot("Machine temporelle"@) == 9);
            } else if i == 10 {
                assert(v@[10].name@ == "Condensateur"@);
                assert(upgrade_name_slot("Condensateur"@) == 10);
            } else if i == 11 {
                assert(v@[11].name@ == "Prisme"@);
                assert("Prisme"@[0] != "Banque"@[0]);
                assert("Prisme"@[0] != "Temple"@[0]);
                assert(upgrade_name_slot("Prisme"@) == 11);
            } else if i == 12 {
                assert(v@[12].name@ == "Chancemaker"@);
                assert(upgrade_name_slot("Chancemaker"@) == 12);
            } else if i == 13 {
                assert(v@[13].name@ == "Fractale"@);
                assert(upgrade_name_slot("Fractale"@) == 13);
            } else if i == 14 {
                assert(v@[14].name@ == "Console JS"@);
                assert("Console JS"@[0] != "Grand-mere"@[0]);
                assert(upgrade_name_slot("Console JS"@) == 14);
            } else if i == 15 {
                assert(v@[15].name@ == "Generateur d'entropie"@);
                assert(upgrade_name_slot("Generateur d'entropie"@) == 15);
            } else if i == 16 {
                assert(v@[16].name@ == "Simulateur de realite"@);
                assert("Simulateur de realite"@[0] != "Generateur d'entropie"@[0]);
                assert(upgrade_name_slot("Simulateur de realite"@) == 16);
            } else if i == 17 {
                assert(v@[17].name@ == "Distorseur quantique"@);
                assert(upgrade_name_slot("Distorseur quantique"@) == 17);
            } else if i == 18 {
                assert(v@[18].name@ == "Forge cosmique"@);
                assert(upgrade_name_slot("Forge cosmique"@) == 18);
            } else if i == 19 {
                assert(v@[19].name@ == "Matrice probabiliste"@);
                assert("Matrice probabiliste"@[0] != "Distorseur quantique"@[0]);
                assert(upgrade_name_slot("Matrice probabiliste"@) == 19);
            } else if i == 20 {
                assert(v@[20].name@ == "Singularite"@);
                assert("Singularite"@[0] != "Chancemaker"@[0]);
                assert(upgrade_name_slot("Singularite"@) == 20);
            } else if i == 21 {
                assert(v@[21].name@ == "Collapseur stellaire"@);
                assert("Collapseur stellaire"@[0] != "Distorseur quantique"@[0]);
                assert("Collapseur stellaire"@[0] != "Matrice probabiliste"@[0]);
                assert(upgrade_name_slot("Collapseur stellaire"@) == 21);
            } else if i == 22 {
                assert(v@[22].name@ == "Source primordiale"@);
                assert("Source primordiale"@[0] != "Machine temporelle"@[0]);
                assert(upgrade_name_slot("Source primordiale"@) == 22);
            } else if i == 23 {
                assert(v@[23].name@ == "Nexus dimensionnel"@);
                assert("Nexus dimensionnel"@[0] != "Machine temporelle"@[0]);
                assert("Nexus dimensionnel"@[0] != "Source primordiale"@[0]);
                assert(upgrade_name_slot("Nexus dimensionnel"@) == 23);
            } else if i == 24 {
                assert(v@[24].name@ == "Moteur de l'existence"@);
                assert("Moteur de l'existence"@[0] != "Generateur d'entropie"@[0]);
                assert("Moteur de l'existence"@[0] != "Simulateur de realite"@[0]);
                assert(upgrade_name_slot("Moteur de l'existence"@) == 24);
            } else if i == 25 {
                assert(v@[25].name@ == "Catalyseur d'univers"@);
                assert("Catalyseur d'univers"@[0] != "Distorseur quantique"@[0]);
                assert("Catalyseur d'univers"@[0] != "Matrice probabiliste"@[0]);
                assert("Catalyseur d'univers"@[1] != "Collapseur stellaire"@[1]);
                assert(upgrade_name_slot("Catalyseur d'univers"@) == 25);
            } else if i == 26 {
                assert(v@[26].name@ == "Coeur du multivers"@);
                assert("Coeur du multivers"@[0] != "Machine temporelle"@[0]);
                assert("Coeur du multivers"@[0] != "Source primordiale"@[0]);
                assert("Coeur du multivers"@[0] != "Nexus dimensionnel"@[0]);
                assert(upgrade_name_slot("Coeur du multivers"@) == 26);
            } else if i == 27 {
                assert(v@[27].name@ == "Tisseur de realites"@);
                assert(upgrade_name_slot("Tisseur de realites"@) == 27);
            } else if i == 28 {
                assert(v@[28].name@ == "Dieu mathematique"@);
                assert(upgrade_name_slot("Dieu mathematique"@) == 28);
            } else if i == 29 {
                assert(v@[29].name@ == "Oracle temporel"@);
                assert(upgrade_name_slot("Oracle temporel"@) == 29);
            } else if i == 30 {
                assert(v@[30].name@ == "Entite absolue"@);
                assert("Entite absolue"@[0] != "Forge cosmique"@[0]);
                assert(upgrade_name_slot("Entite absolue"@) == 30);
            } else if i == 31 {
                assert(v@[31].name@ == "Architecte des vides"@);
                assert("Architecte des vides"@[0] != "Distorseur quantique"@[0]);
                assert("Architecte des vides"@[0] != "Matrice probabiliste"@[0]);
                assert("Architecte des vides"@[0] != "Collapseur stellaire"@[0]);
                assert("Architecte des vides"@[0] != "Catalyseur d'univers"@[0]);
                assert(upgrade_name_slot("Architecte des vides"@) == 31);
            } else if i == 32 {
                assert(v@[32].name@ == "Origine"@);
                assert("Origine"@[0] != "Curseur"@[0]);
                assert("Origine"@[0] != "Portail"@[0]);
                assert(upgrade_name_slot("Origine"@) == 32);
            } else if i == 33 {
                assert(v@[33].name@ == "Essence primale"@);
                assert("Essence primale"@[0] != "Oracle temporel"@[0]);
                assert(upgrade_name_slot("Essence primale"@) == 33);
            } else if i == 34 {
                assert(v@[34].name@ == "Architecte dimensionnel"@);
                assert(upgrade_name_slot("Architecte dimensionnel"@) == 34);
            } else if i == 35 {
                assert(v@[35].name@ == "Volonte cosmique"@);
                assert(upgrade_name_slot("Volonte cosmique"@) == 35);
            } else if i == 36 {
                assert(v@[36].name@ == "Gardien eternel"@);
                assert("Gardien eternel"@[0] != "Oracle temporel"@[0]);
                assert("Gardien eternel"@[0] != "Essence primale"@[0]);
                assert(upgrade_name_slot("Gardien eternel"@) == 36);
            } else if i == 37 {
                assert(v@[37].name@ == "Maitre du chaos"@);
                assert("Maitre du chaos"@[0] != "Oracle temporel"@[0]);
                assert("Maitre du chaos"@[0] != "Essence primale"@[0]);
                assert("Maitre du chaos"@[0] != "Gardien eternel"@[0]);
                assert(upgrade_name_slot("Maitre du chaos"@) == 37);
            } else if i == 38 {
                assert(v@[38].name@ == "Tisseur de probabilites"@);
                assert("Tisseur de probabilites"@[0] != "Architecte dimensionnel"@[0]);
                assert(upgrade_name_slot("Tisseur de probabilites"@) == 38);
            } else if i == 39 {
                assert(v@[39].name@ == "Forgeron d'etoiles"@);
                assert("Forgeron d'etoiles"@[0] != "Machine temporelle"@[0]);
                assert("Forgeron d'etoiles"@[0] != "Source primordiale"@[0]);
                assert("Forgeron d'etoiles"@[0] != "Nexus dimensionnel"@[0]);
                assert("Forgeron d'etoiles"@[0] != "Coeur du multivers"@[0]);
                assert(upgrade_name_slot("Forgeron d'etoiles"@) == 39);
            } else if i == 40 {
                assert(v@[40].name@ == "Demiurge"@);
                assert("Demiurge"@[0] != "Fractale"@[0]);
                assert(upgrade_name_slot("Demiurge"@) == 40);
            }
        }
        assert forall|i: int| 0 <= i < v@.len() implies ((#[trigger] v@[i]).count == 0 && v@[i].cost == v@[i].base_cost && v@[i].cps_milli >= 1) by {
            assert(upgrade_name_slot(v@[i].name@) == i);
        }
        assert forall|j: int, k: int| 0 <= j < k < v@.len() implies v@[j].name@ != v@[
            k
        ].name@ by {
            assert(upgrade_name_slot(v@[j].name@) == j);
            assert(upgrade_name_slot(v@[k].name@) == k);
        }
    }
    v
}

/// The catalog position of a multiplier name, or a negative value for a
/// name the catalog does not carry. Each name maps to exactly one
/// position, which is how the names are proved pairwise distinct.
spec fn powerup_name_slot(s: Seq<char>) -> int {
    if s == "Clic renforce"@ {
        0
    } else if s == "Double clic"@ {
        1
    } else if s == "Triple frappe"@ {
        2
    } else if s == "Clic furieux"@ {
        3
    } else if s == "Doigt d'acier"@ {
        4
    } else if s == "Bras cybernetique"@ {
        5
    } else if s == "Main divine"@ {
        6
    } else if s == "Frappe amplifiee"@ {
        7
    } else if s == "Clic cosmique"@ {
        8
    } else if s == "Poing stellaire"@ {
        9
    } else if s == "Doigt quantique"@ {
        10
    } else if s == "Coup atomique"@ {
        11
    } else if s == "Main fractale"@ {
        12
    } else if s == "Frappe moleculaire"@ {
        13
    } else if s == "Hyper clic"@ {
        14
    } else if s == "Clic critique"@ {
        15
    } else if s == "Frappe explosive"@ {
        16
    } else if s == "Clic instable"@ {
        17
    } else if s == "Poing du titan"@ {
        18
    } else if s == "Resonance du combo"@ {
        19
    } else if s == "Frappe sismique"@ {
        20
    } else if s == "Clic abyssal"@ {
        21
    } else if s == "Main des profondeurs"@ {
        22
    } else if s == "Clic divin absolu"@ {
        23
    } else if s == "Frappe celeste"@ {
        24
    } else if s == "Main temporelle"@ {
        25
    } else if s == "Clic distordu"@ {
        26
    } else if s == "Doigt infini"@ {
        27
    } else if s == "Frappe eternelle"@ {
        28
    } else if s == "Clic paradoxal"@ {
        29
    } else if s == "Poing galactique"@ {
        30
    } else if s == "Clic dimensionnel"@ {
        31
    } else if s == "Frappe du vide"@ {
        32
    } else if s == "Clic cosmologique"@ {
        33
    } else if s == "Main de l'oubli"@ {
        34
    } else if s == "Clic primordial"@ {
        35
    } else if s == "Frappe ancestrale"@ {
        36
    } else if s == "Clic universel"@ {
        37
    } else if s == "Poing de la creation"@ {
        38
    } else if s == "Clic omnipotent"@ {
        39
    } else if s == "Frappe du destin"@ {
        40
    } else if s == "Clic absolu"@ {
        41
    } else if s == "Main de l'alpha"@ {
        42
    } else if s == "Frappe etheree"@ {
        43
    } else if s == "Clic transcendant"@ {
        44
    } else if s == "Poing originel"@ {
        45
    } else if s == "Main du vide"@ {
        46
    } else if s == "Frappe omnisciente"@ {
        47
    } else if s == "Doigt du destin"@ {
        48
    } else if s == "Clic du neant"@ {
        49
    } else {
        -1
    }
}

/// The current multiplier catalog.
#[verifier::rlimit(60)]
pub fn get_powerups() -> (v: Vec<PowerUp>)
    ensures
        v@.len() == 50,
        forall|i: int|
            0 <= i < v@.len() ==> (#[trigger] v@[i]).count == 0 && v@[i].cost == v@[i].base_cost
                && v@[i].multiplier >= 1,
        powerup_names_distinct(v@),
{
    let mut v: Vec<PowerUp> = Vec::new();
    v.push(pu("Clic renforce", 100, 1, "+1 cookies par clic"));
    v.push(pu("Double clic", 500, 2, "+2 cookies par clic"));
    v.push(pu("Triple frappe", 2_000, 5, "+5 cookies par clic"));
    v.push(pu("Clic furieux", 10_000, 10, "+10 cookies par clic"));
    v.push(pu("Doigt d'acier", 50_000, 25, "+25 cookies par clic"));
    v.push(pu("Bras cybernetique", 250_000, 50, "+50 cookies par clic"));
    v.push(pu("Main divine", 1_000_000, 100, "+100 cookies par clic"));
    v.push(pu("Frappe amplifiee", 2_500_000, 150, "+150 cookies par clic"));
    v.push(pu("Clic cosmique", 5_000_000, 250, "+250 cookies par clic"));
    v.push(pu("Poing stellaire", 12_000_000, 375, "+375 cookies par clic"));
    v.push(pu("Doigt quantique", 20_000_000, 500, "+500 cookies par clic"));
    v.push(pu("Coup atomique", 50_000_000, 750, "+750 cookies par clic"));
    v.push(pu("Main fractale", 100_000_000, 1_000, "+1_000 cookies par clic"));
    v.push(pu("Frappe moleculaire", 250_000_000, 1_500, "+1_500 cookies par clic"));
    v.push(pu("Hyper clic", 500_000_000, 2_500, "+2_500 cookies par clic"));
    v.push(pu("Clic critique", 1_000_000_000, 5_000, "+5_000 cookies par clic"));
    v.push(pu("Frappe explosive", 1_750_000_000, 7_500, "+7_500 cookies par clic"));
    v.push(pu("Clic instable", 2_500_000_000, 10_000, "+10_000 cookies par clic"));
    v.push(pu("Poing du titan", 3_750_000_000, 15_000, "+15_000 cookies par clic"));
    v.push(pu("Resonance du combo", 5_000_000_000, 20_000, "+20_000 cookies par clic"));
    v.push(pu("Frappe sismique", 7_500_000_000, 35_000, "+35_000 cookies par clic"));
    v.push(pu("Clic abyssal", 10_000_000_000, 50_000, "+50_000 cookies par clic"));
    v.push(pu("Main des profondeurs", 25_000_000_000, 75_000, "+75_000 cookies par clic"));
    v.push(pu("Clic divin absolu", 50_000_000_000, 100_000, "+100_000 cookies par clic"));
    v.push(pu("Frappe celeste", 75_000_000_000, 175_000, "+175_000 cookies par clic"));
    v.push(pu("Main temporelle", 100_000_000_000, 250_000, "+250_000 cookies par clic"));
    v.push(pu("Clic distordu", 250_000_000_000, 375_000, "+375_000 cookies par clic"));
    v.push(pu("Doigt infini", 500_000_000_000, 500_000, "+500_000 cookies par clic"));
    v.push(pu("Frappe eternelle", 750_000_000_000, 750_000, "+750_000 cookies par clic"));
    v.push(pu("Clic paradoxal", 1_000_000_000_000, 1_000_000, "+1_000_000 cookies par clic"));
    v.push(pu("Poing galactique", 2_500_000_000_000, 1_500_000, "+1_500_000 cookies par clic"));
    v.push(pu("Clic dimensionnel", 5_000_000_000_000, 2_500_000, "+2_500_000 cookies par clic"));
    v.push(pu("Frappe du vide", 7_500_000_000_000, 3_750_000, "+3_750_000 cookies par clic"));
    v.push(pu("Clic cosmologique", 10_000_000_000_000, 5_000_000, "+5_000_000 cookies par clic"));
    v.push(pu("Main de l'oubli", 25_000_000_000_000, 7_500_000, "+7_500_000 cookies par clic"));
    v.push(pu("Clic primordial", 50_000_000_000_000, 10_000_000, "+10_000_000 cookies par clic"));
    v.push(pu("Frappe ancestrale", 75_000_000_000_000, 17_500_000, "+17_500_000 cookies par clic"));
    v.push(pu("Clic universel", 100_000_000_000_000, 25_000_000, "+25_000_000 cookies par clic"));
    v.push(pu("Poing de la creation", 250_000_000_000_000, 37_500_000, "+37_500_000 cookies par clic"));
    v.push(pu("Clic omnipotent", 500_000_000_000_000, 50_000_000, "+50_000_000 cookies par clic"));
    v.push(pu("Frappe du destin", 750_000_000_000_000, 75_000_000, "+75_000_000 cookies par clic"));
    v.push(pu("Clic absolu", 1_000_000_000_000_000, 100_000_000, "+100_000_000 cookies par clic"));
    v.push(pu("Main de l'alpha", 2_500_000_000_000_000, 175_000_000, "+175_000_000 cookies par clic"));
    v.push(pu("Frappe etheree", 5_000_000_000_000_000, 250_000_000, "+250_000_000 cookies par clic"));
    v.push(pu("Clic transcendant", 10_000_000_000_000_000, 400_000_000, "+400_000_000 cookies par clic"));
    v.push(pu("Poing originel", 17_500_000_000_000_000, 650_000_000, "+650_000_000 cookies par clic"));
    v.push(pu("Main du vide", 25_000_000_000_000_000, 1_000_000_000, "+1_000_000_000 cookies par clic"));
    v.push(pu("Frappe omnisciente", 50_000_000_000_000_000, 1_750_000_000, "+1_750_000_000 cookies par clic"));
    v.push(pu("Doigt du destin", 100_000_000_000_000_000, 3_000_000_000, "+3_000_000_000 cookies par clic"));
    v.push(pu("Clic du neant", 200_000_000_000_000_000, 5_000_000_000, "+5_000_000_000 cookies par clic"));
    proof {
        reveal_strlit("Clic renforce");
        reveal_strlit("Double clic");
        reveal_strlit("Triple frappe");
        reveal_strlit("Clic furieux");
        reveal_strlit("Doigt d'acier");
        reveal_strlit("Bras cybernetique");
        reveal_strlit("Main divine");
        reveal_strlit("Frappe amplifiee");
        reveal_strlit("Clic cosmique");
        reveal_strlit("Poing stellaire");
        reveal_strlit("Doigt quantique");
        reveal_strlit("Coup atomique");
        reveal_strlit("Main fractale");
        reveal_strlit("Frappe moleculaire");
        reveal_strlit("Hyper clic");
        reveal_strlit("Clic critique");
        reveal_strlit("Frappe explosive");
        reveal_strlit("Clic instable");
        reveal_strlit("Poing du titan");
        reveal_strlit("Resonance du combo");
        reveal_strlit("Frappe sismique");
        reveal_strlit("Clic abyssal");
        reveal_strlit("Main des profondeurs");
        reveal_strlit("Clic divin absolu");
        reveal_strlit("Frappe celeste");
        reveal_strlit("Main temporelle");
        reveal_strlit("Clic distordu");
        reveal_strlit("Doigt infini");
        reveal_strlit("Frappe eternelle");
        reveal_strlit("Clic paradoxal");
        reveal_strlit("Poing galactique");
        reveal_strlit("Clic dimensionnel");
        reveal_strlit("Frappe du vide");
        reveal_strlit("Clic cosmologique");
        reveal_strlit("Main de l'oubli");
        reveal_strlit("Clic primordial");
        reveal_strlit("Frappe ancestrale");
        reveal_strlit("Clic universel");
        reveal_strlit("Poing de la creation");
        reveal_strlit("Clic omnipotent");
        reveal_strlit("Frappe du destin");
        reveal_strlit("Clic absolu");
        reveal_strlit("Main de l'alpha");
        reveal_strlit("Frappe etheree");
        reveal_strlit("Clic transcendant");
        reveal_strlit("Poing originel");
        reveal_strlit("Main du vide");
        reveal_strlit("Frappe omnisciente");
        reveal_strlit("Doigt du destin");
        reveal_strlit("Clic du neant");
        assert forall|i: int| 0 <= i < v@.len() implies {
            &&& #[trigger] powerup_name_slot(v@[i].name@) == i
            &&& v@[i].count == 0
            &&& v@[i].cost == v@[i].base_cost
            &&& v@[i].multiplier >= 1
        } by {
            if i == 0 {
                assert(v@[0].name@ == "Clic renforce"@);
                assert(powerup_name_slot("Clic renforce"@) == 0);
            } else if i == 1 {
                assert(v@[1].name@ == "Double clic"@);
                assert(powerup_name_slot("Double clic"@) == 1);
            } else if i == 2 {
                assert(v@[2].name@ == "Triple frappe"@);
                assert("Triple frappe"@[0] != "Clic renforce"@[0]);
                assert(powerup_name_slot("Triple frappe"@) == 2);
            } else if i == 3 {
                assert(v@[3].name@ == "Clic furieux"@);
                assert(powerup_name_slot("Clic furieux"@) == 3);
            } else if i == 4 {
                assert(v@[4].name@ == "Doigt d'acier"@);
                assert("Doigt d'acier"@[0] != "Clic renforce"@[0]);
                assert("Doigt d'acier"@[0] != "Triple frappe"@[0]);
                assert(powerup_name_slot("Doigt d'acier"@) == 4);
            } else if i == 5 {
                assert(v@[5].name@ == "Bras cybernetique"@);
                assert(powerup_name_slot("Bras cybernetique"@) == 5);
            } else if i == 6 {
                assert(v@[6].name@ == "Main divine"@);
                assert("Main divine"@[0] != "Double clic"@[0]);
                assert(powerup_name_slot("Main divine"@) == 6);
            } else if i == 7 {
                assert(v@[7].name@ == "Frappe amplifiee"@);
                assert(powerup_name_slot("Frappe amplifiee"@) == 7);
            } else if i == 8 {
                assert(v@[8].name@ == "Clic cosmique"@);
                assert("Clic cosmique"@[5] != "Clic renforce"@[5]);
                assert("Clic cosmique"@[0] != "Triple frappe"@[0]);
                assert("Clic cosmique"@[0] != "Doigt d'acier"@[0]);
                assert(powerup_name_slot("Clic cosmique"@) == 8);
            } else if i == 9 {
                assert(v@[9].name@ == "Poing stellaire"@);
                assert(powerup_name_slot("Poing stellaire"@) == 9);
            } else if i == 10 {
                assert(v@[10].name@ == "Doigt quantique"@);
                assert("Doigt quantique"@[0] != "Poing stellaire"@[0]);
                assert(powerup_name_slot("Doigt quantique"@) == 10);
            } else if i == 11 {
                assert(v@[11].name@ == "Coup atomique"@);
                assert("Coup atomique"@[1] != "Clic renforce"@[1]);
                assert("Coup atomique"@[0] != "Triple frappe"@[0]);
                assert("Coup atomique"@[0] != "Doigt d'acier"@[0]);
                assert("Coup atomique"@[1] != "Clic cosmique"@[1]);
                assert(powerup_name_slot("Coup atomique"@) == 11);
            } else if i == 12 {
                assert(v@[12].name@ == "Main fractale"@);
                assert("Main fractale"@[0] != "Clic renforce"@[0]);
                assert("Main fractale"@[0] != "Triple frappe"@[0]);
                assert("Main fractale"@[0] != "Doigt d'acier"@[0]);
                assert("Main fractale"@[0] != "Clic cosmique"@[0]);
                assert("Main fractale"@[0] != "Coup atomique"@[0]);
                assert(powerup_name_slot("Main fractale"@) == 12);
            } else if i == 13 {
                assert(v@[13].name@ == "Frappe moleculaire"@);
                assert(powerup_name_slot("Frappe moleculaire"@) == 13);
            } else if i == 14 {
                assert(v@[14].name@ == "Hyper clic"@);
                assert(powerup_name_slot("Hyper clic"@) == 14);
            } else if i == 15 {
                assert(v@[15].name@ == "Clic critique"@);
                assert("Clic critique"@[5] != "Clic renforce"@[5]);
                assert("Clic critique"@[0] != "Triple frappe"@[0]);
                assert("Clic critique"@[0] != "Doigt d'acier"@[0]);
                assert("Clic critique"@[6] != "Clic cosmique"@[6]);
                assert("Clic critique"@[1] != "Coup atomique"@[1]);
                assert("Clic critique"@[0] != "Main fractale"@[0]);
                assert(powerup_name_slot("Clic critique"@) == 15);
            } else if i == 16 {
                assert(v@[16].name@ == "Frappe explosive"@);
                assert("Frappe explosive"@[7] != "Frappe amplifiee"@[7]);
                assert(powerup_name_slot("Frappe explosive"@) == 16);
            } else if i == 17 {
                assert(v@[17].name@ == "Clic instable"@);
                assert("Clic instable"@[5] != "Clic renforce"@[5]);
                assert("Clic instable"@[0] != "Triple frappe"@[0]);
                assert("Clic instable"@[0] != "Doigt d'acier"@[0]);
                assert("Clic instable"@[5] != "Clic cosmique"@[5]);
                assert("Clic instable"@[1] != "Coup atomique"@[1]);
                assert("Clic instable"@[0] != "Main fractale"@[0]);
                assert("Clic instable"@[5] != "Clic critique"@[5]);
                assert(powerup_name_slot("Clic instable"@) == 17);
            } else if i == 18 {
                assert(v@[18].name@ == "Poing du titan"@);
                assert(powerup_name_slot("Poing du titan"@) == 18);
            } else if i == 19 {
                assert(v@[19].name@ == "Resonance du combo"@);
                assert("Resonance du combo"@[0] != "Frappe moleculaire"@[0]);
                assert(powerup_name_slot("Resonance du combo"@) == 19);
            } else if i == 20 {
                assert(v@[20].name@ == "Frappe sismique"@);
                assert("Frappe sismique"@[0] != "Poing stellaire"@[0]);
                assert("Frappe sismique"@[0] != "Doigt quantique"@[0]);
                assert(powerup_name_slot("Frappe sismique"@) == 20);
            } else if i == 21 {
                assert(v@[21].name@ == "Clic abyssal"@);
                assert("Clic abyssal"@[5] != "Clic furieux"@[5]);
                assert(powerup_name_slot("Clic abyssal"@) == 21);
            } else if i == 22 {
                assert(v@[22].name@ == "Main des profondeurs"@);
                assert(powerup_name_slot("Main des profondeurs"@) == 22);
            } else if i == 23 {
                assert(v@[23].name@ == "Clic divin absolu"@);
                assert("Clic divin absolu"@[0] != "Bras cybernetique"@[0]);
                assert(powerup_name_slot("Clic divin absolu"@) == 23);
            } else if i == 24 {
                assert(v@[24].name@ == "Frappe celeste"@);
                assert("Frappe celeste"@[0] != "Poing du titan"@[0]);
                assert(powerup_name_slot("Frappe celeste"@) == 24);
            } else if i == 25 {
                assert(v@[25].name@ == "Main temporelle"@);
                assert("Main temporelle"@[0] != "Poing stellaire"@[0]);
                assert("Main temporelle"@[0] != "Doigt quantique"@[0]);
                assert("Main temporelle"@[0] != "Frappe sismique"@[0]);
                assert(powerup_name_slot("Main temporelle"@) == 25);
            } else if i == 26 {
                assert(v@[26].name@ == "Clic distordu"@);
                assert("Clic distordu"@[5] != "Clic renforce"@[5]);
                assert("Clic distordu"@[0] != "Triple frappe"@[0]);
                assert("Clic distordu"@[0] != "Doigt d'acier"@[0]);
                assert("Clic distordu"@[5] != "Clic cosmique"@[5]);
                assert("Clic distordu"@[1] != "Coup atomique"@[1]);
                assert("Clic distordu"@[0] != "Main fractale"@[0]);
                assert("Clic distordu"@[5] != "Clic critique"@[5]);
                assert("Clic distordu"@[5] != "Clic instable"@[5]);
                assert(powerup_name_slot("Clic distordu"@) == 26);
            } else if i == 27 {
                assert(v@[27].name@ == "Doigt infini"@);
                assert("Doigt infini"@[0] != "Clic furieux"@[0]);
                assert("Doigt infini"@[0] != "Clic abyssal"@[0]);
                assert(powerup_name_slot("Doigt infini"@) == 27);
            } else if i == 28 {
                assert(v@[28].name@ == "Frappe eternelle"@);
                assert("Frappe eternelle"@[7] != "Frappe amplifiee"@[7]);
                assert("Frappe eternelle"@[8] != "Frappe explosive"@[8]);
                assert(powerup_name_slot("Frappe eternelle"@) == 28);
            } else if i == 29 {
                assert(v@[29].name@ == "Clic paradoxal"@);
                assert("Clic paradoxal"@[0] != "Poing du titan"@[0]);
                assert("Clic paradoxal"@[0] != "Frappe celeste"@[0]);
                assert(powerup_name_slot("Clic paradoxal"@) == 29);
            } else if i == 30 {
                assert(v@[30].name@ == "Poing galactique"@);
                assert("Poing galactique"@[0] != "Frappe amplifiee"@[0]);
                assert("Poing galactique"@[0] != "Frappe explosive"@[0]);
                assert("Poing galactique"@[0] != "Frappe eternelle"@[0]);
                assert(powerup_name_slot("Poing galactique"@) == 30);
            } else if i == 31 {
                assert(v@[31].name@ == "Clic dimensionnel"@);
                assert("Clic dimensionnel"@[0] != "Bras cybernetique"@[0]);
                assert("Clic dimensionnel"@[7] != "Clic divin absolu"@[7]);
                assert(powerup_name_slot("Clic dimensionnel"@) == 31);
            } else if i == 32 {
                assert(v@[32].name@ == "Frappe du vide"@);
                assert("Frappe du vide"@[0] != "Poing du titan"@[0]);
                assert("Frappe du vide"@[7] != "Frappe celeste"@[7]);
                assert("Frappe du vide"@[0] != "Clic paradoxal"@[0]);
                assert(powerup_name_slot("Frappe du vide"@) == 32);
            } else if i == 33 {
                assert(v@[33].name@ == "Clic cosmologique"@);
                assert("Clic cosmologique"@[0] != "Bras cybernetique"@[0]);
                assert("Clic cosmologique"@[5] != "Clic divin absolu"@[5]);
                assert("Clic cosmologique"@[5] != "Clic dimensionnel"@[5]);
                assert(powerup_name_slot("Clic cosmologique"@) == 33);
            } else if i == 34 {
                assert(v@[34].name@ == "Main de l'oubli"@);
                assert("Main de l'oubli"@[0] != "Poing stellaire"@[0]);
                assert("Main de l'oubli"@[0] != "Doigt quantique"@[0]);
                assert("Main de l'oubli"@[0] != "Frappe sismique"@[0]);
                assert("Main de l'oubli"@[5] != "Main temporelle"@[5]);
                assert(powerup_name_slot("Main de l'oubli"@) == 34);
            } else if i == 35 {
                assert(v@[35].name@ == "Clic primordial"@);
                assert("Clic primordial"@[0] != "Poing stellaire"@[0]);
                assert("Clic primordial"@[0] != "Doigt quantique"@[0]);
                assert("Clic primordial"@[0] != "Frappe sismique"@[0]);
                assert("Clic primordial"@[0] != "Main temporelle"@[0]);
                assert("Clic primordial"@[0] != "Main de l'oubli"@[0]);
                assert(powerup_name_slot("Clic primordial"@) == 35);
            } else if i == 36 {
                assert(v@[36].name@ == "Frappe ancestrale"@);
                assert("Frappe ancestrale"@[0] != "Bras cybernetique"@[0]);
                assert("Frappe ancestrale"@[0] != "Clic divin absolu"@[0]);
                assert("Frappe ancestrale"@[0] != "Clic dimensionnel"@[0]);
                assert("Frappe ancestrale"@[0] != "Clic cosmologique"@[0]);
                assert(powerup_name_slot("Frappe ancestrale"@) == 36);
            } else if i == 37 {
                assert(v@[37].name@ == "Clic universel"@);
                assert("Clic universel"@[0] != "Poing du titan"@[0]);
                assert("Clic universel"@[0] != "Frappe celeste"@[0]);
                assert("Clic universel"@[5] != "Clic paradoxal"@[5]);
                assert("Clic universel"@[0] != "Frappe du vide"@[0]);
                assert(powerup_name_slot("Clic universel"@) == 37);
            } else if i == 38 {
                assert(v@[38].name@ == "Poing de la creation"@);
                assert("Poing de la creation"@[0] != "Main des profondeurs"@[0]);
                assert(powerup_name_slot("Poing de la creation"@) == 38);
            } else if i == 39 {
                assert(v@[39].name@ == "Clic omnipotent"@);
                assert("Clic omnipotent"@[0] != "Poing stellaire"@[0]);
                assert("Clic omnipotent"@[0] != "Doigt quantique"@[0]);
                assert("Clic omnipotent"@[0] != "Frappe sismique"@[0]);
                assert("Clic omnipotent"@[0] != "Main temporelle"@[0]);
                assert("Clic omnipotent"@[0] != "Main de l'oubli"@[0]);
                assert("Clic omnipotent"@[5] != "Clic primordial"@[5]);
                assert(powerup_name_slot("Clic omnipotent"@) == 39);
            } else if i == 40 {
                assert(v@[40].name@ == "Frappe du destin"@);
                assert("Frappe du destin"@[7] != "Frappe amplifiee"@[7]);
                assert("Frappe du destin"@[7] != "Frappe explosive"@[7]);
                assert("Frappe du destin"@[7] != "Frappe eternelle"@[7]);
                assert("Frappe du destin"@[0] != "Poing galactique"@[0]);
                assert(powerup_name_slot("Frappe du destin"@) == 40);
            } else if i == 41 {
                assert(v@[41].name@ == "Clic absolu"@);
                assert("Clic absolu"@[0] != "Double clic"@[0]);
                assert("Clic absolu"@[0] != "Main divine"@[0]);
                assert(powerup_name_slot("Clic absolu"@) == 41);
            } else if i == 42 {
                assert(v@[42].name@ == "Main de l'alpha"@);
                assert("Main de l'alpha"@[0] != "Poing stellaire"@[0]);
                assert("Main de l'alpha"@[0] != "Doigt quantique"@[0]);
                assert("Main de l'alpha"@[0] != "Frappe sismique"@[0]);
                assert("Main de l'alpha"@[5] != "Main temporelle"@[5]);
                assert("Main de l'alpha"@[10] != "Main de l'oubli"@[10]);
                assert("Main de l'alpha"@[0] != "Clic primordial"@[0]);
                assert("Main de l'alpha"@[0] != "Clic omnipotent"@[0]);
                assert(powerup_name_slot("Main de l'alpha"@) == 42);
            } else if i == 43 {
                assert(v@[43].name@ == "Frappe etheree"@);
                assert("Frappe etheree"@[0] != "Poing du titan"@[0]);
                assert("Frappe etheree"@[7] != "Frappe celeste"@[7]);
                assert("Frappe etheree"@[0] != "Clic paradoxal"@[0]);
                assert("Frappe etheree"@[7] != "Frappe du vide"@[7]);
                assert("Frappe etheree"@[0] != "Clic universel"@[0]);
                assert(powerup_name_slot("Frappe etheree"@) == 43);
            } else if i == 44 {
                assert(v@[44].name@ == "Clic transcendant"@);
                assert("Clic transcendant"@[0] != "Bras cybernetique"@[0]);
                assert("Clic transcendant"@[5] != "Clic divin absolu"@[5]);
                assert("Clic transcendant"@[5] != "Clic dimensionnel"@[5]);
                assert("Clic transcendant"@[5] != "Clic cosmologique"@[5]);
                assert("Clic transcendant"@[0] != "Frappe ancestrale"@[0]);
                assert(powerup_name_slot("Clic transcendant"@) == 44);
            } else if i == 45 {
                assert(v@[45].name@ == "Poing originel"@);
                assert("Poing originel"@[6] != "Poing du titan"@[6]);
                assert("Poing originel"@[0] != "Frappe celeste"@[0]);
                assert("Poing originel"@[0] != "Clic paradoxal"@[0]);
                assert("Poing originel"@[0] != "Frappe du vide"@[0]);
                assert("Poing originel"@[0] != "Clic universel"@[0]);
                assert("Poing originel"@[0] != "Frappe etheree"@[0]);
                assert(powerup_name_slot("Poing originel"@) == 45);
            } else if i == 46 {
                assert(v@[46].name@ == "Main du vide"@);
                assert("Main du vide"@[0] != "Clic furieux"@[0]);
                assert("Main du vide"@[0] != "Clic abyssal"@[0]);
                assert("Main du vide"@[0] != "Doigt infini"@[0]);
                assert(powerup_name_slot("Main du vide"@) == 46);
            } else if i == 47 {
                assert(v@[47].name@ == "Frappe omnisciente"@);
                assert("Frappe omnisciente"@[7] != "Frappe moleculaire"@[7]);
                assert("Frappe omnisciente"@[0] != "Resonance du combo"@[0]);
                assert(powerup_name_slot("Frappe omnisciente"@) == 47);
            } else if i == 48 {
                assert(v@[48].name@ == "Doigt du destin"@);
                assert("Doigt du destin"@[0] != "Poing stellaire"@[0]);
                assert("Doigt du destin"@[6] != "Doigt quantique"@[6]);
                assert("Doigt du destin"@[0] != "Frappe sismique"@[0]);
                assert("Doigt du destin"@[0] != "Main temporelle"@[0]);
                assert("Doigt du destin"@[0] != "Main de l'oubli"@[0]);
                assert("Doigt du destin"@[0] != "Clic primordial"@[0]);
                assert("Doigt du destin"@[0] != "Clic omnipotent"@[0]);
                assert("Doigt du destin"@[0] != "Main de l'alpha"@[0]);
                assert(powerup_name_slot("Doigt du destin"@) == 48);
            } else if i == 49 {
                assert(v@[49].name@ == "Clic du neant"@);
                assert("Clic du neant"@[5] != "Clic renforce"@[5]);
                assert("Clic du neant"@[0] != "Triple frappe"@[0]);
                assert("Clic du neant"@[0] != "Doigt d'acier"@[0]);
                assert("Clic du neant"@[5] != "Clic cosmique"@[5]);
                assert("Clic du neant"@[1] != "Coup atomique"@[1]);
                assert("Clic du neant"@[0] != "Main fractale"@[0]);
                assert("Clic du neant"@[5] != "Clic critique"@[5]);
                assert("Clic du neant"@[5] != "Clic instable"@[5]);
                assert("Clic du neant"@[6] != "Clic distordu"@[6]);
                assert(powerup_name_slot("Clic du neant"@) == 49);
            }
        }
        assert forall|i: int| 0 <= i < v@.len() implies ((#[trigger] v@[i]).count == 0 && v@[i].cost == v@[i].base_cost && v@[i].multiplier >= 1) by {
            assert(powerup_name_slot(v@[i].name@) == i);
        }
        assert forall|j: int, k: int| 0 <= j < k < v@.len() implies v@[j].name@ != v@[
            k
        ].name@ by {
            assert(powerup_name_slot(v@[j].name@) == j);
            assert(powerup_name_slot(v@[k].name@) == k);
        }
    }
    v
}

} // verus!
