//! Achievement definitions and their unlock bookkeeping.
//!
//! An achievement is immutable catalog data: a stable name, a
//! description, and an unlock condition drawn from a closed set of
//! predicate kinds. Only the per-achievement unlocked flag is mutable
//! state; it is stored in a vector parallel to the achievement list,
//! indexed identically. Whether a condition currently holds is decided
//! by the economy state, so the evaluator itself lives with
//! `GameState`; this module owns the data model.

use vstd::prelude::*;

verus! {

/// The closed set of unlock-condition kinds. Rate thresholds are in
/// whole cookies per second; the generator-count condition names the
/// generator by catalog index and is simply never satisfied when that
/// index does not exist.
pub enum AchievementRequirement {
    /// Lifetime cookies earned reaches the threshold.
    TotalCookies(u128),
    /// Passive production, in whole cookies per second, reaches the
    /// threshold.
    CookiesPerSecond(u128),
    /// Total manual clicks reach the threshold.
    Clicks(u128),
    /// Golden-cookie pickups reach the threshold.
    GoldenCookies(u128),
    /// The generator at the given catalog index is owned at least the
    /// given number of times.
    BuildingCount(usize, u128),
    /// The prestige level reaches the threshold.
    PrestigeLevel(u128),
    /// The current combo level reaches the threshold.
    Combos(u128),
}

/// One achievement definition.
pub struct Achievement {
    pub name: String,
    pub description: String,
    pub requirement: AchievementRequirement,
}

/// The achievement catalog together with its parallel unlocked flags.
pub struct AchievementList {
    pub achievements: Vec<Achievement>,
    pub unlocked: Vec<bool>,
}

impl AchievementList {
    /// The flag vector mirrors the achievement list index for index.
    pub open spec fn wf(self) -> bool {
        self.unlocked@.len() == self.achievements@.len()
    }

    /// How many achievements are unlocked so far, as a model count.
    pub open spec fn spec_unlocked_count(flags: Seq<bool>) -> nat
        decreases flags.len(),
    {
        if flags.len() == 0 {
            0
        } else {
            Self::spec_unlocked_count(flags.drop_last()) + if flags.last() {
                1nat
            } else {
                0nat
            }
        }
    }

    /// Count the unlocked achievements.
    pub fn unlocked_count(&self) -> (n: usize)
        ensures
            n == Self::spec_unlocked_count(self.unlocked@),
    {
        let mut n: usize = 0;
        let mut i: usize = 0;
        while i < self.unlocked.len()
            invariant
                i <= self.unlocked@.len(),
                n == Self::spec_unlocked_count(self.unlocked@.take(i as int)),
                n <= i,
            decreases self.unlocked@.len() - i,
        {
            proof {
                assert(self.unlocked@.take(i + 1).drop_last() =~= self.unlocked@.take(i as int));
                assert(self.unlocked@.take(i + 1).last() == self.unlocked@[i as int]);
            }
            if self.unlocked[i] {
                n = n + 1;
            }
            i = i + 1;
        }
        proof {
            assert(self.unlocked@.take(self.unlocked@.len() as int) =~= self.unlocked@);
        }
        n
    }
}

/// Pairwise-distinct achievement names.
pub open spec fn achievement_names_distinct(s: Seq<Achievement>) -> bool {
    forall|j: int, k: int| 0 <= j < k < s.len() ==> s[j].name@ != s[k].name@
}

/// Validate that no two achievements share a reconciliation key.
pub fn achievement_names_unique(v: &Vec<Achievement>) -> (r: bool)
    ensures
        r == achievement_names_distinct(v@),
{
    let mut j: usize = 0;
    while j < v.len()
        invariant
            j <= v@.len(),
            forall|a: int, b: int| 0 <= a < b < v@.len() && a < j ==> v@[a].name@ != v@[b].name@,
        decreases v@.len() - j,
    {
        let mut k: usize = j + 1;
        while k < v.len()
            invariant
                j < k <= v@.len() || (j + 1 == k && k > v@.len()),
                j < v@.len(),
                forall|b: int| j < b < k ==> v@[j as int].name@ != v@[b].name@,
            decreases v@.len() - k,
        {
            if v[j].name == v[k].name {
                return false;
            }
            k = k + 1;
        }
        j = j + 1;
    }
    true
}

/// Build one achievement definition.
fn ach(name: &str, description: &str, requirement: AchievementRequirement) -> (a: Achievement)
    ensures
        a.name@ == name@,
        a.description@ == description@,
        a.requirement == requirement,
{
    Achievement { name: name.to_owned(), description: description.to_owned(), requirement }
}

/// The catalog position of an achievement name, or a negative value for a
/// name the catalog does not carry. Each name maps to exactly one
/// position, which is how the names are proved pairwise distinct.
spec fn achievement_name_slot(s: Seq<char>) -> int {
    if s == "Premiers pas"@ {
        0
    } else if s == "Addict"@ {
        1
    } else if s == "Machine a cliquer"@ {
        2
    } else if s == "Doigt divin"@ {
        3
    } else if s == "Doigt qui chauffe"@ {
        4
    } else if s == "Tendinite imminente"@ {
        5
    } else if s == "Os broyes"@ {
        6
    } else if s == "Plus de doigts"@ {
        7
    } else if s == "Pure volonte"@ {
        8
    } else if s == "Accumulation"@ {
        9
    } else if s == "Capitaliste"@ {
        10
    } else if s == "Tycoon"@ {
        11
    } else if s == "Entite cosmique"@ {
        12
    } else if s == "Boulanger amateur"@ {
        13
    } else if s == "Boulanger industriel"@ {
        14
    } else if s == "Dieu du gluten"@ {
        15
    } else if s == "Violation des lois physiques"@ {
        16
    } else if s == "Production stable"@ {
        17
    } else if s == "Usine infernale"@ {
        18
    } else if s == "Realite industrielle"@ {
        19
    } else if s == "Ca tourne"@ {
        20
    } else if s == "Rythme soutenu"@ {
        21
    } else if s == "Effondrement energetique"@ {
        22
    } else if s == "Singularite sucree"@ {
        23
    } else if s == "Encore un"@ {
        24
    } else if s == "Tu t'arretes jamais ?"@ {
        25
    } else if s == "C'est obsessionnel"@ {
        26
    } else if s == "Va toucher de l'herbe"@ {
        27
    } else if s == "Carnage"@ {
        28
    } else if s == "Boucher en serie"@ {
        29
    } else if s == "Extinction totale"@ {
        30
    } else if s == "Combo naturel"@ {
        31
    } else if s == "Enchainement malsain"@ {
        32
    } else if s == "Ce n'est plus un jeu"@ {
        33
    } else if s == "Deni de realite"@ {
        34
    } else if s == "Au-dela du combo"@ {
        35
    } else if s == "Collectionneur"@ {
        36
    } else if s == "Maison de retraite"@ {
        37
    } else if s == "Ferme intensive"@ {
        38
    } else if s == "Empire industriel"@ {
        39
    } else if s == "Colonisation"@ {
        40
    } else if s == "Exploitation familiale"@ {
        41
    } else if s == "Agro-capitalisme"@ {
        42
    } else if s == "Complexe militaro-boulanger"@ {
        43
    } else if s == "Chance insolente"@ {
        44
    } else if s == "Beni des dieux"@ {
        45
    } else if s == "Coup de bol"@ {
        46
    } else if s == "Chercheur d'or"@ {
        47
    } else if s == "Favori du RNG"@ {
        48
    } else if s == "Manipulateur de probas"@ {
        49
    } else if s == "Renaissance"@ {
        50
    } else if s == "Ascension"@ {
        51
    } else if s == "Immortel"@ {
        52
    } else if s == "Transcendance"@ {
        53
    } else if s == "Encore une fois"@ {
        54
    } else if s == "Refus de finir"@ {
        55
    } else if s == "Eternel recommencement"@ {
        56
    } else if s == "Dieu ancien"@ {
        57
    } else if s == "Le jeu te joue"@ {
        58
    } else {
        -1
    }
}

/// The current achievement catalog, with every flag still locked.
#[verifier::rlimit(60)]
pub fn get_achievements() -> (list: AchievementList)
    ensures
        list.wf(),
        list.achievements@.len() == 59,
        forall|i: int| 0 <= i < list.unlocked@.len() ==> !list.unlocked@[i],
        achievement_names_distinct(list.achievements@),
{
    let mut v: Vec<Achievement> = Vec::new();
    v.push(ach("Premiers pas", "Cliquez 10 fois", AchievementRequirement::Clicks(10)));
    v.push(ach("Addict", "Cliquez 1 000 fois", AchievementRequirement::Clicks(1_000)));
    v.push(ach("Machine a cliquer", "Cliquez 100 000 fois", AchievementRequirement::Clicks(100_000)));
    v.push(ach("Doigt divin", "Cliquez 1 million de fois", AchievementRequirement::Clicks(1_000_000)));
    v.push(ach("Doigt qui chauffe", "Cliquez 100 fois", AchievementRequirement::Clicks(100)));
    v.push(ach("Tendinite imminente", "Cliquez 10 000 fois", AchievementRequirement::Clicks(10_000)));
    v.push(ach("Os broyes", "Cliquez 1 million de fois", AchievementRequirement::Clicks(1_000_000)));
    v.push(ach("Plus de doigts", "Cliquez 10 millions de fois", AchievementRequirement::Clicks(10_000_000)));
    v.push(ach("Pure volonte", "Cliquez 100 millions de fois", AchievementRequirement::Clicks(100_000_000)));
    v.push(ach("Accumulation", "Gagnez 1 million de cookies", AchievementRequirement::TotalCookies(1_000_000)));
    v.push(ach("Capitaliste", "Gagnez 1 milliard de cookies", AchievementRequirement::TotalCookies(1_000_000_000)));
    v.push(ach("Tycoon", "Gagnez 1 trillion de cookies", AchievementRequirement::TotalCookies(1_000_000_000_000)));
    v.push(ach("Entite cosmique", "Gagnez 1 quintillion de cookies", AchievementRequirement::TotalCookies(1_000_000_000_000_000_000)));
    v.push(ach("Boulanger amateur", "Gagnez 100 000 cookies", AchievementRequirement::TotalCookies(100_000)));
    v.push(ach("Boulanger industriel", "Gagnez 10 millions de cookies", AchievementRequirement::TotalCookies(10_000_000)));
    v.push(ach("Dieu du gluten", "Gagnez 10 billions de cookies", AchievementRequirement::TotalCookies(10_000_000_000_000)));
    v.push(ach("Violation des lois physiques", "Gagnez 1 sextillion de cookies", AchievementRequirement::TotalCookies(1_000_000_000_000_000_000_000)));
    v.push(ach("Production stable", "1 000 cookies/sec", AchievementRequirement::CookiesPerSecond(1_000)));
    v.push(ach("Usine infernale", "1 million cookies/sec", AchievementRequirement::CookiesPerSecond(1_000_000)));
    v.push(ach("Realite industrielle", "1 milliard cookies/sec", AchievementRequirement::CookiesPerSecond(1_000_000_000)));
    v.push(ach("Ca tourne", "100 cookies/sec", AchievementRequirement::CookiesPerSecond(100)));
    v.push(ach("Rythme soutenu", "10 000 cookies/sec", AchievementRequirement::CookiesPerSecond(10_000)));
    v.push(ach("Effondrement energetique", "10 millions cookies/sec", AchievementRequirement::CookiesPerSecond(10_000_000)));
    v.push(ach("Singularite sucree", "1 trillion cookies/sec", AchievementRequirement::CookiesPerSecond(1_000_000_000_000)));
    v.push(ach("Encore un", "10 combos", AchievementRequirement::Combos(10)));
    v.push(ach("Tu t'arretes jamais ?", "100 combos", AchievementRequirement::Combos(100)));
    v.push(ach("C'est obsessionnel", "1 000 combos", AchievementRequirement::Combos(1_000)));
    v.push(ach("Va toucher de l'herbe", "5 000 combos", AchievementRequirement::Combos(5_000)));
    v.push(ach("Carnage", "10 000 combos", AchievementRequirement::Combos(10_000)));
    v.push(ach("Boucher en serie", "15 000 combos", AchievementRequirement::Combos(15_000)));
    v.push(ach("Extinction totale", "20 000 combos", AchievementRequirement::Combos(20_000)));
    v.push(ach("Combo naturel", "25 combos", AchievementRequirement::Combos(25)));
    v.push(ach("Enchainement malsain", "250 combos", AchievementRequirement::Combos(250)));
    v.push(ach("Ce n'est plus un jeu", "2 500 combos", AchievementRequirement::Combos(2_500)));
    v.push(ach("Deni de realite", "50 000 combos", AchievementRequirement::Combos(50_000)));
    v.push(ach("Au-dela du combo", "100 000 combos", AchievementRequirement::Combos(100_000)));
    v.push(ach("Collectionneur", "50 curseurs", AchievementRequirement::BuildingCount(0, 50)));
    v.push(ach("Maison de retraite", "50 grand-meres", AchievementRequirement::BuildingCount(1, 50)));
    v.push(ach("Ferme intensive", "50 fermes", AchievementRequirement::BuildingCount(2, 50)));
    v.push(ach("Empire industriel", "100 usines", AchievementRequirement::BuildingCount(4, 100)));
    v.push(ach("Colonisation", "100 curseurs", AchievementRequirement::BuildingCount(0, 100)));
    v.push(ach("Exploitation familiale", "100 grand-meres", AchievementRequirement::BuildingCount(1, 100)));
    v.push(ach("Agro-capitalisme", "200 fermes", AchievementRequirement::BuildingCount(2, 200)));
    v.push(ach("Complexe militaro-boulanger", "300 usines", AchievementRequirement::BuildingCount(4, 300)));
    v.push(ach("Chance insolente", "10 golden cookies", AchievementRequirement::GoldenCookies(10)));
    v.push(ach("Beni des dieux", "100 golden cookies", AchievementRequirement::GoldenCookies(100)));
    v.push(ach("Coup de bol", "1 golden cookie", AchievementRequirement::GoldenCookies(1)));
    v.push(ach("Chercheur d'or", "25 golden cookies", AchievementRequirement::GoldenCookies(25)));
    v.push(ach("Favori du RNG", "250 golden cookies", AchievementRequirement::GoldenCookies(250)));
    v.push(ach("Manipulateur de probas", "1 000 golden cookies", AchievementRequirement::GoldenCookies(1_000)));
    v.push(ach("Renaissance", "Prestige niveau 1", AchievementRequirement::PrestigeLevel(1)));
    v.push(ach("Ascension", "Prestige niveau 5", AchievementRequirement::PrestigeLevel(5)));
    v.push(ach("Immortel", "Prestige niveau 25", AchievementRequirement::PrestigeLevel(25)));
    v.push(ach("Transcendance", "Prestige niveau 100", AchievementRequirement::PrestigeLevel(100)));
    v.push(ach("Encore une fois", "Prestige niveau 2", AchievementRequirement::PrestigeLevel(2)));
    v.push(ach("Refus de finir", "Prestige niveau 10", AchievementRequirement::PrestigeLevel(10)));
    v.push(ach("Eternel recommencement", "Prestige niveau 50", AchievementRequirement::PrestigeLevel(50)));
    v.push(ach("Dieu ancien", "Prestige niveau 250", AchievementRequirement::PrestigeLevel(250)));
    v.push(ach("Le jeu te joue", "Prestige niveau 1 000", AchievementRequirement::PrestigeLevel(1_000)));
    proof {
        reveal_strlit("Premiers pas");
        reveal_strlit("Addict");
        reveal_strlit("Machine a cliquer");
        reveal_strlit("Doigt divin");
        reveal_strlit("Doigt qui chauffe");
        reveal_strlit("Tendinite imminente");
        reveal_strlit("Os broyes");
        reveal_strlit("Plus de doigts");
        reveal_strlit("Pure volonte");
        reveal_strlit("Accumulation");
        reveal_strlit("Capitaliste");
        reveal_strlit("Tycoon");
        reveal_strlit("Entite cosmique");
        reveal_strlit("Boulanger amateur");
        reveal_strlit("Boulanger industriel");
        reveal_strlit("Dieu du gluten");
        reveal_strlit("Violation des lois physiques");
        reveal_strlit("Production stable");
        reveal_strlit("Usine infernale");
        reveal_strlit("Realite industrielle");
        reveal_strlit("Ca tourne");
        reveal_strlit("Rythme soutenu");
        reveal_strlit("Effondrement energetique");
        reveal_strlit("Singularite sucree");
        reveal_strlit("Encore un");
        reveal_strlit("Tu t'arretes jamais ?");
        reveal_strlit("C'est obsessionnel");
        reveal_strlit("Va toucher de l'herbe");
        reveal_strlit("Carnage");
        reveal_strlit("Boucher en serie");
        reveal_strlit("Extinction totale");
        reveal_strlit("Combo naturel");
        reveal_strlit("Enchainement malsain");
        reveal_strlit("Ce n'est plus un jeu");
        reveal_strlit("Deni de realite");
        reveal_strlit("Au-dela du combo");
        reveal_strlit("Collectionneur");
        reveal_strlit("Maison de retraite");
        reveal_strlit("Ferme intensive");
        reveal_strlit("Empire industriel");
        reveal_strlit("Colonisation");
        reveal_strlit("Exploitation familiale");
        reveal_strlit("Agro-capitalisme");
        reveal_strlit("Complexe militaro-boulanger");
        reveal_strlit("Chance insolente");
        reveal_strlit("Beni des dieux");
        reveal_strlit("Coup de bol");
        reveal_strlit("Chercheur d'or");
        reveal_strlit("Favori du RNG");
        reveal_strlit("Manipulateur de probas");
        reveal_strlit("Renaissance");
        reveal_strlit("Ascension");
        reveal_strlit("Immortel");
        reveal_strlit("Transcendance");
        reveal_strlit("Encore une fois");
        reveal_strlit("Refus de finir");
        reveal_strlit("Eternel recommencement");
        reveal_strlit("Dieu ancien");
        reveal_strlit("Le jeu te joue");
        assert forall|i: int| 0 <= i < v@.len() implies {
            &&& #[trigger] achievement_name_slot(v@[i].name@) == i
        } by {
            if i == 0 {
                assert(v@[0].name@ == "Premiers pas"@);
                assert(achievement_name_slot("Premiers pas"@) == 0);
            } else if i == 1 {
                assert(v@[1].name@ == "Addict"@);
                assert(achievement_name_slot("Addict"@) == 1);
            } else if i == 2 {
                assert(v@[2].name@ == "Machine a cliquer"@);
                assert(achievement_name_slot("Machine a cliquer"@) == 2);
            } else if i == 3 {
                assert(v@[3].name@ == "Doigt divin"@);
                assert(achievement_name_slot("Doigt divin"@) == 3);
            } else if i == 4 {
                assert(v@[4].name@ == "Doigt qui chauffe"@);
                assert("Doigt qui chauffe"@[0] != "Machine a cliquer"@[0]);
                assert(achievement_name_slot("Doigt qui chauffe"@) == 4);
            } else if i == 5 {
                assert(v@[5].name@ == "Tendinite imminente"@);
                assert(achievement_name_slot("Tendinite imminente"@) == 5);
            } else if i == 6 {
                assert(v@[6].name@ == "Os broyes"@);
                assert(achievement_name_slot("Os broyes"@) == 6);
            } else if i == 7 {
                assert(v@[7].name@ == "Plus de doigts"@);
                assert(achievement_name_slot("Plus de doigts"@) == 7);
            } else if i == 8 {
                assert(v@[8].name@ == "Pure volonte"@);
                assert("Pure volonte"@[1] != "Premiers pas"@[1]);
                assert(achievement_name_slot("Pure volonte"@) == 8);
            } else if i == 9 {
                assert(v@[9].name@ == "Accumulation"@);
                assert("Accumulation"@[0] != "Premiers pas"@[0]);
                assert("Accumulation"@[0] != "Pure volonte"@[0]);
                assert(achievement_name_slot("Accumulation"@) == 9);
            } else if i == 10 {
                assert(v@[10].name@ == "Capitaliste"@);
                assert("Capitaliste"@[0] != "Doigt divin"@[0]);
                assert(achievement_name_slot("Capitaliste"@) == 10);
            } else if i == 11 {
                assert(v@[11].name@ == "Tycoon"@);
                assert("Tycoon"@[0] != "Addict"@[0]);
                assert(achievement_name_slot("Tycoon"@) == 11);
            } else if i == 12 {
                assert(v@[12].name@ == "Entite cosmique"@);
                assert(achievement_name_slot("Entite cosmique"@) == 12);
            } else if i == 13 {
                assert(v@[13].name@ == "Boulanger amateur"@);
                assert("Boulanger amateur"@[0] != "Machine a cliquer"@[0]);
                assert("Boulanger amateur"@[0] != "Doigt qui chauffe"@[0]);
                assert(achievement_name_slot("Boulanger amateur"@) == 13);
            } else if i == 14 {
                assert(v@[14].name@ == "Boulanger industriel"@);
                assert(achievement_name_slot("Boulanger industriel"@) == 14);
            } else if i == 15 {
                assert(v@[15].name@ == "Dieu du gluten"@);
                assert("Dieu du gluten"@[0] != "Plus de doigts"@[0]);
                assert(achievement_name_slot("Dieu du gluten"@) == 15);
            } else if i == 16 {
                assert(v@[16].name@ == "Violation des lois physiques"@);
                assert(achievement_name_slot("Violation des lois physiques"@) == 16);
            } else if i == 17 {
                assert(v@[17].name@ == "Production stable"@);
                assert("Production stable"@[0] != "Machine a cliquer"@[0]);
                assert("Production stable"@[0] != "Doigt qui chauffe"@[0]);
                assert("Production stable"@[0] != "Boulanger amateur"@[0]);
                assert(achievement_name_slot("Production stable"@) == 17);
            } else if i == 18 {
                assert(v@[18].name@ == "Usine infernale"@);
                assert("Usine infernale"@[0] != "Entite cosmique"@[0]);
                assert(achievement_name_slot("Usine infernale"@) == 18);
            } else if i == 19 {
                assert(v@[19].name@ == "Realite industrielle"@);
                assert("Realite industrielle"@[0] != "Boulanger industriel"@[0]);
                assert(achievement_name_slot("Realite industrielle"@) == 19);
            } else if i == 20 {
                assert(v@[20].name@ == "Ca tourne"@);
                assert("Ca tourne"@[0] != "Os broyes"@[0]);
                assert(achievement_name_slot("Ca tourne"@) == 20);
            } else if i == 21 {
                assert(v@[21].name@ == "Rythme soutenu"@);
                assert("Rythme soutenu"@[0] != "Plus de doigts"@[0]);
                assert("Rythme soutenu"@[0] != "Dieu du gluten"@[0]);
                assert(achievement_name_slot("Rythme soutenu"@) == 21);
            } else if i == 22 {
                assert(v@[22].name@ == "Effondrement energetique"@);
                assert(achievement_name_slot("Effondrement energetique"@) == 22);
            } else if i == 23 {
                assert(v@[23].name@ == "Singularite sucree"@);
                assert(achievement_name_slot("Singularite sucree"@) == 23);
            } else if i == 24 {
                assert(v@[24].name@ == "Encore un"@);
                assert("Encore un"@[0] != "Os broyes"@[0]);
                assert("Encore un"@[0] != "Ca tourne"@[0]);
                assert(achievement_name_slot("Encore un"@) == 24);
            } else if i == 25 {
                assert(v@[25].name@ == "Tu t'arretes jamais ?"@);
                assert(achievement_name_slot("Tu t'arretes jamais ?"@) == 25);
            } else if i == 26 {
                assert(v@[26].name@ == "C'est obsessionnel"@);
                assert("C'est obsessionnel"@[0] != "Singularite sucree"@[0]);
                assert(achievement_name_slot("C'est obsessionnel"@) == 26);
            } else if i == 27 {
                assert(v@[27].name@ == "Va toucher de l'herbe"@);
                assert("Va toucher de l'herbe"@[0] != "Tu t'arretes jamais ?"@[0]);
                assert(achievement_name_slot("Va toucher de l'herbe"@) == 27);
            } else if i == 28 {
                assert(v@[28].name@ == "Carnage"@);
                assert(achievement_name_slot("Carnage"@) == 28);
            } else if i == 29 {
                assert(v@[29].name@ == "Boucher en serie"@);
                assert(achievement_name_slot("Boucher en serie"@) == 29);
            } else if i == 30 {
                assert(v@[30].name@ == "Extinction totale"@);
                assert("Extinction totale"@[0] != "Machine a cliquer"@[0]);
                assert("Extinction totale"@[0] != "Doigt qui chauffe"@[0]);
                assert("Extinction totale"@[0] != "Boulanger amateur"@[0]);
                assert("Extinction totale"@[0] != "Production stable"@[0]);
                assert(achievement_name_slot("Extinction totale"@) == 30);
            } else if i == 31 {
                assert(v@[31].name@ == "Combo naturel"@);
                assert(achievement_name_slot("Combo naturel"@) == 31);
            } else if i == 32 {
                assert(v@[32].name@ == "Enchainement malsain"@);
                assert("Enchainement malsain"@[0] != "Boulanger industriel"@[0]);
                assert("Enchainement malsain"@[0] != "Realite industrielle"@[0]);
                assert(achievement_name_slot("Enchainement malsain"@) == 32);
            } else if i == 33 {
                assert(v@[33].name@ == "Ce n'est plus un jeu"@);
                assert("Ce n'est plus un jeu"@[0] != "Boulanger industriel"@[0]);
                assert("Ce n'est plus un jeu"@[0] != "Realite industrielle"@[0]);
                assert("Ce n'est plus un jeu"@[0] != "Enchainement malsain"@[0]);
                assert(achievement_name_slot("Ce n'est plus un jeu"@) == 33);
            } else if i == 34 {
                assert(v@[34].name@ == "Deni de realite"@);
                assert("Deni de realite"@[0] != "Entite cosmique"@[0]);
                assert("Deni de realite"@[0] != "Usine infernale"@[0]);
                assert(achievement_name_slot("Deni de realite"@) == 34);
            } else if i == 35 {
                assert(v@[35].name@ == "Au-dela du combo"@);
                assert("Au-dela du combo"@[0] != "Boucher en serie"@[0]);
                assert(achievement_name_slot("Au-dela du combo"@) == 35);
            } else if i == 36 {
                assert(v@[36].name@ == "Collectionneur"@);
                assert("Collectionneur"@[0] != "Plus de doigts"@[0]);
                assert("Collectionneur"@[0] != "Dieu du gluten"@[0]);
                assert("Collectionneur"@[0] != "Rythme soutenu"@[0]);
                assert(achievement_name_slot("Collectionneur"@) == 36);
            } else if i == 37 {
                assert(v@[37].name@ == "Maison de retraite"@);
                assert("Maison de retraite"@[0] != "Singularite sucree"@[0]);
                assert("Maison de retraite"@[0] != "C'est obsessionnel"@[0]);
                assert(achievement_name_slot("Maison de retraite"@) == 37);
            } else if i == 38 {
                assert(v@[38].name@ == "Ferme intensive"@);
                assert("Ferme intensive"@[0] != "Entite cosmique"@[0]);
                assert("Ferme intensive"@[0] != "Usine infernale"@[0]);
                assert("Ferme intensive"@[0] != "Deni de realite"@[0]);
                assert(achievement_name_slot("Ferme intensive"@) == 38);
            } else if i == 39 {
                assert(v@[39].name@ == "Empire industriel"@);
                assert("Empire industriel"@[0] != "Machine a cliquer"@[0]);
                assert("Empire industriel"@[0] != "Doigt qui chauffe"@[0]);
                assert("Empire industriel"@[0] != "Boulanger amateur"@[0]);
                assert("Empire industriel"@[0] != "Production stable"@[0]);
                assert("Empire industriel"@[1] != "Extinction totale"@[1]);
                assert(achievement_name_slot("Empire industriel"@) == 39);
            } else if i == 40 {
                assert(v@[40].name@ == "Colonisation"@);
                assert("Colonisation"@[0] != "Premiers pas"@[0]);
                assert("Colonisation"@[0] != "Pure volonte"@[0]);
                assert("Colonisation"@[0] != "Accumulation"@[0]);
                assert(achievement_name_slot("Colonisation"@) == 40);
            } else if i == 41 {
                assert(v@[41].name@ == "Exploitation familiale"@);
                assert(achievement_name_slot("Exploitation familiale"@) == 41);
            } else if i == 42 {
                assert(v@[42].name@ == "Agro-capitalisme"@);
                assert("Agro-capitalisme"@[0] != "Boucher en serie"@[0]);
                assert("Agro-capitalisme"@[1] != "Au-dela du combo"@[1]);
                assert(achievement_name_slot("Agro-capitalisme"@) == 42);
            } else if i == 43 {
                assert(v@[43].name@ == "Complexe militaro-boulanger"@);
                assert(achievement_name_slot("Complexe militaro-boulanger"@) == 43);
            } else if i == 44 {
                assert(v@[44].name@ == "Chance insolente"@);
                assert("Chance insolente"@[0] != "Boucher en serie"@[0]);
                assert("Chance insolente"@[0] != "Au-dela du combo"@[0]);
                assert("Chance insolente"@[0] != "Agro-capitalisme"@[0]);
                assert(achievement_name_slot("Chance insolente"@) == 44);
            } else if i == 45 {
                assert(v@[45].name@ == "Beni des dieux"@);
                assert("Beni des dieux"@[0] != "Plus de doigts"@[0]);
                assert("Beni des dieux"@[0] != "Dieu du gluten"@[0]);
                assert("Beni des dieux"@[0] != "Rythme soutenu"@[0]);
                assert("Beni des dieux"@[0] != "Collectionneur"@[0]);
                assert(achievement_name_slot("Beni des dieux"@) == 45);
            } else if i == 46 {
                assert(v@[46].name@ == "Coup de bol"@);
                assert("Coup de bol"@[0] != "Doigt divin"@[0]);
                assert("Coup de bol"@[1] != "Capitaliste"@[1]);
                assert(achievement_name_slot("Coup de bol"@) == 46);
            } else if i == 47 {
                assert(v@[47].name@ == "Chercheur d'or"@);
                assert("Chercheur d'or"@[0] != "Plus de doigts"@[0]);
                assert("Chercheur d'or"@[0] != "Dieu du gluten"@[0]);
                assert("Chercheur d'or"@[0] != "Rythme soutenu"@[0]);
                assert("Chercheur d'or"@[1] != "Collectionneur"@[1]);
                assert("Chercheur d'or"@[0] != "Beni des dieux"@[0]);
                assert(achievement_name_slot("Chercheur d'or"@) == 47);
            } else if i == 48 {
                assert(v@[48].name@ == "Favori du RNG"@);
                assert("Favori du RNG"@[0] != "Combo naturel"@[0]);
                assert(achievement_name_slot("Favori du RNG"@) == 48);
            } else if i == 49 {
                assert(v@[49].name@ == "Manipulateur de probas"@);
                assert("Manipulateur de probas"@[0] != "Exploitation familiale"@[0]);
                assert(achievement_name_slot("Manipulateur de probas"@) == 49);
            } else if i == 50 {
                assert(v@[50].name@ == "Renaissance"@);
                assert("Renaissance"@[0] != "Doigt divin"@[0]);
                assert("Renaissance"@[0] != "Capitaliste"@[0]);
                assert("Renaissance"@[0] != "Coup de bol"@[0]);
                assert(achievement_name_slot("Renaissance"@) == 50);
            } else if i == 51 {
                assert(v@[51].name@ == "Ascension"@);
                assert("Ascension"@[0] != "Os broyes"@[0]);
                assert("Ascension"@[0] != "Ca tourne"@[0]);
                assert("Ascension"@[0] != "Encore un"@[0]);
                assert(achievement_name_slot("Ascension"@) == 51);
            } else if i == 52 {
                assert(v@[52].name@ == "Immortel"@);
                assert(achievement_name_slot("Immortel"@) == 52);
            } else if i == 53 {
                assert(v@[53].name@ == "Transcendance"@);
                assert("Transcendance"@[0] != "Combo naturel"@[0]);
                assert("Transcendance"@[0] != "Favori du RNG"@[0]);
                assert(achievement_name_slot("Transcendance"@) == 53);
            } else if i == 54 {
                assert(v@[54].name@ == "Encore une fois"@);
                assert("Encore une fois"@[2] != "Entite cosmique"@[2]);
                assert("Encore une fois"@[0] != "Usine infernale"@[0]);
                assert("Encore une fois"@[0] != "Deni de realite"@[0]);
                assert("Encore une fois"@[0] != "Ferme intensive"@[0]);
                assert(achievement_name_slot("Encore une fois"@) == 54);
            } else if i == 55 {
                assert(v@[55].name@ == "Refus de finir"@);
                assert("Refus de finir"@[0] != "Plus de doigts"@[0]);
                assert("Refus de finir"@[0] != "Dieu du gluten"@[0]);
                assert("Refus de finir"@[1] != "Rythme soutenu"@[1]);
                assert("Refus de finir"@[0] != "Collectionneur"@[0]);
                assert("Refus de finir"@[0] != "Beni des dieux"@[0]);
                assert("Refus de finir"@[0] != "Chercheur d'or"@[0]);
                assert(achievement_name_slot("Refus de finir"@) == 55);
            } else if i == 56 {
                assert(v@[56].name@ == "Eternel recommencement"@);
                assert("Eternel recommencement"@[1] != "Exploitation familiale"@[1]);
                assert("Eternel recommencement"@[0] != "Manipulateur de probas"@[0]);
                assert(achievement_name_slot("Eternel recommencement"@) == 56);
            } else if i == 57 {
                assert(v@[57].name@ == "Dieu ancien"@);
                assert("Dieu ancien"@[1] != "Doigt divin"@[1]);
                assert("Dieu ancien"@[0] != "Capitaliste"@[0]);
                assert("Dieu ancien"@[0] != "Coup de bol"@[0]);
                assert("Dieu ancien"@[0] != "Renaissance"@[0]);
                assert(achievement_name_slot("Dieu ancien"@) == 57);
            } else if i == 58 {
                assert(v@[58].name@ == "Le jeu te joue"@);
                assert("Le jeu te joue"@[0] != "Plus de doigts"@[0]);
                assert("Le jeu te joue"@[0] != "Dieu du gluten"@[0]);
                assert("Le jeu te joue"@[0] != "Rythme soutenu"@[0]);
                assert("Le jeu te joue"@[0] != "Collectionneur"@[0]);
                assert("Le jeu te joue"@[0] != "Beni des dieux"@[0]);
                assert("Le jeu te joue"@[0] != "Chercheur d'or"@[0]);
                assert("Le jeu te joue"@[0] != "Refus de finir"@[0]);
                assert(achievement_name_slot("Le jeu te joue"@) == 58);
            }
        }
        assert forall|j: int, k: int| 0 <= j < k < v@.len() implies v@[j].name@ != v@[
            k
        ].name@ by {
            assert(achievement_name_slot(v@[j].name@) == j);
            assert(achievement_name_slot(v@[k].name@) == k);
        }
    }
    let mut unlocked: Vec<bool> = Vec::new();
    let mut i: usize = 0;
    while i < v.len()
        invariant
            unlocked@.len() == i <= v@.len(),
            forall|j: int| 0 <= j < i ==> !unlocked@[j],
        decreases v@.len() - i,
    {
        unlocked.push(false);
        i = i + 1;
    }
    AchievementList { achievements: v, unlocked }
}

} // verus!
