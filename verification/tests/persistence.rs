use clicker_core::achievements::get_achievements;
use clicker_core::catalog::{
    get_powerups, get_upgrade, powerup_names_unique, upgrade_names_unique, Upgrade,
};
use clicker_core::snapshot::{load, reconcile, Snapshot};
use clicker_core::state::GameState;

#[test]
fn catalog_keys_are_unique() {
    assert!(upgrade_names_unique(&get_upgrade()));
    assert!(powerup_names_unique(&get_powerups()));
}

#[test]
fn catalog_items_start_fresh_with_real_yields() {
    assert!(get_upgrade().iter().all(|u| u.count == 0 && u.cost == u.base_cost && u.cps_milli >= 1));
    assert!(get_powerups().iter().all(|p| p.count == 0 && p.cost == p.base_cost && p.multiplier >= 1));
}

#[test]
fn save_load_round_trip_reproduces_the_game() {
    let mut s = GameState::default();
    s.cookies = 500_000;
    s.lifetime_cookies = 9_000_000;
    s.prestige_points = 9;
    for _ in 0..3 {
        s.purchase_generator(0).unwrap();
    }
    s.purchase_generator(2).unwrap();
    s.purchase_multiplier(0).unwrap();
    for _ in 0..10 {
        s.manual_action(1, 1);
    }
    s.collect_special_bonus(0, 7);
    s.check_achievements(0);

    let snap = s.save();
    let r = load(&snap);

    assert_eq!(r.cookies, s.cookies);
    assert_eq!(r.lifetime_cookies, s.lifetime_cookies);
    assert_eq!(r.click_count, s.click_count);
    assert_eq!(r.golden_cookies_clicked, s.golden_cookies_clicked);
    assert_eq!(r.prestige_level, s.prestige_level);
    assert_eq!(r.prestige_points, s.prestige_points);
    assert_eq!(r.upgrades.len(), s.upgrades.len());
    for (a, b) in r.upgrades.iter().zip(s.upgrades.iter()) {
        assert_eq!(a.name, b.name);
        assert_eq!(a.count, b.count);
        assert_eq!(a.cost, b.cost);
    }
    for (a, b) in r.powerups.iter().zip(s.powerups.iter()) {
        assert_eq!(a.name, b.name);
        assert_eq!(a.count, b.count);
        assert_eq!(a.cost, b.cost);
    }
    assert_eq!(r.cookies_per_second_milli, s.cookies_per_second_milli);
    assert_eq!(r.cookies_per_click, s.cookies_per_click);
    assert_eq!(r.achievements.unlocked, s.achievements.unlocked);
    // The run total starts fresh on load; it is not part of a snapshot.
    assert_eq!(r.total_cookies_earned, 0);
}

#[test]
fn loading_a_sparse_snapshot_defaults_missing_items_to_zero() {
    // The snapshot knows one generator; every other catalog item is a
    // later addition from its point of view.
    let mut snap = Snapshot::empty();
    snap.cookies = 42;
    snap.upgrades.push(("Curseur".to_string(), 3));
    let r = load(&snap);
    assert_eq!(r.cookies, 42);
    assert_eq!(r.upgrades[0].name, "Curseur");
    assert_eq!(r.upgrades[0].count, 3);
    // 15 -> 17 -> 19 -> 21 under three 15%-steps.
    assert_eq!(r.upgrades[0].cost, 21);
    // Production is rebuilt from the count: 100 milli * 3.
    assert_eq!(r.cookies_per_second_milli, 300);
    for u in r.upgrades.iter().skip(1) {
        assert_eq!(u.count, 0);
        assert_eq!(u.cost, u.base_cost);
    }
}

#[test]
fn loading_drops_unknown_names_without_error() {
    let mut snap = Snapshot::empty();
    snap.upgrades.push(("Moulin fantome".to_string(), 5));
    snap.powerups.push(("Clic disparu".to_string(), 2));
    snap.achievements.push(("Succes retire".to_string(), true));
    let r = load(&snap);
    assert_eq!(r.upgrades.len(), 41);
    assert!(r.upgrades.iter().all(|u| u.name != "Moulin fantome" && u.count == 0));
    assert!(r.powerups.iter().all(|p| p.count == 0));
    assert!(r.achievements.unlocked.iter().all(|b| !b));
}

#[test]
fn loading_reconciles_achievements_by_name() {
    let mut snap = Snapshot::empty();
    snap.achievements.push(("Premiers pas".to_string(), true));
    snap.achievements.push(("Addict".to_string(), false));
    let r = load(&snap);
    assert!(r.achievements.unlocked[0]);
    assert!(r.achievements.unlocked.iter().skip(1).all(|b| !b));
}

#[test]
fn loading_recomputes_click_yield_and_clamps_points() {
    let mut snap = Snapshot::empty();
    // The stored click yield is stale; counts are authoritative.
    snap.cookies_per_click = 999;
    snap.powerups.push(("Clic renforce".to_string(), 2));
    // More banked prestige currency than the lifetime supports.
    snap.prestige_points = 100;
    snap.lifetime_cookies = 3_000_000;
    let r = load(&snap);
    assert_eq!(r.cookies_per_click, 1 + 2);
    assert_eq!(r.prestige_points, 3);
}

#[test]
fn reconcile_against_an_extended_catalog() {
    // A catalog that has grown a brand-new generator since the
    // snapshot was written.
    let mut up_cat = get_upgrade();
    up_cat.push(Upgrade {
        name: "Moulin galactique".to_string(),
        base_cost: 777,
        cost: 777,
        cps_milli: 5_000,
        count: 0,
        description: "Produit 5 cookies/sec".to_string(),
        tier: 0,
    });
    let mut snap = Snapshot::empty();
    snap.upgrades.push(("Curseur".to_string(), 1));
    let r = reconcile(&snap, up_cat, get_powerups(), get_achievements().achievements);
    assert_eq!(r.upgrades.len(), 42);
    let new_item = r.upgrades.last().unwrap();
    assert_eq!(new_item.name, "Moulin galactique");
    assert_eq!(new_item.count, 0);
    assert_eq!(new_item.cost, 777);
    assert_eq!(r.upgrades[0].count, 1);
}

#[test]
fn parse_failure_means_a_fresh_game() {
    // The presentation layer maps an unreadable snapshot to the empty
    // one; loading it is exactly a fresh game.
    let r = load(&Snapshot::empty());
    let fresh = GameState::default();
    assert_eq!(r.cookies, fresh.cookies);
    assert_eq!(r.cookies_per_click, fresh.cookies_per_click);
    assert_eq!(r.cookies_per_second_milli, fresh.cookies_per_second_milli);
    assert_eq!(r.upgrades.len(), fresh.upgrades.len());
    assert!(r.upgrades.iter().all(|u| u.count == 0));
}
