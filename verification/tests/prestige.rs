use clicker_core::cost_curve::prestige_requirement;
use clicker_core::state::{EconomyError, GameState};

#[test]
fn requirement_formula_base_point() {
    // Level zero needs exactly 10^11.
    assert_eq!(prestige_requirement(0), 100_000_000_000);
    // Level one: 2 * 105 * 10^9.
    assert_eq!(prestige_requirement(1), 210_000_000_000);
    // Level two: 3 * 110 * 10^9.
    assert_eq!(prestige_requirement(2), 330_000_000_000);
}

#[test]
fn requirement_is_increasing() {
    let mut last = 0u128;
    for level in 0..200u64 {
        let req = prestige_requirement(level);
        assert!(req > last);
        last = req;
    }
}

#[test]
fn prestige_below_requirement_fails_repeatedly_without_change() {
    let mut s = GameState::default();
    s.cookies = prestige_requirement(0) - 1;
    s.lifetime_cookies = s.cookies;
    let cookies_before = s.cookies;
    let lifetime_before = s.lifetime_cookies;
    for _ in 0..3 {
        assert_eq!(s.prestige(), Err(EconomyError::NotEnoughLifetimeCurrency));
        assert_eq!(s.cookies, cookies_before);
        assert_eq!(s.lifetime_cookies, lifetime_before);
        assert_eq!(s.prestige_level, 0);
        assert_eq!(s.prestige_points, 0);
    }
}

#[test]
fn prestige_resets_generators_and_banks_points() {
    let mut s = GameState::default();
    s.cookies = 300_000_000_000;
    s.lifetime_cookies = 7_000_000;
    s.purchase_generator(0).unwrap();
    s.purchase_generator(0).unwrap();
    s.purchase_multiplier(0).unwrap();
    let click_yield_before = s.cookies_per_click;
    let powerup_count_before = s.powerups[0].count;
    assert!(s.cookies_per_second_milli > 0);

    assert_eq!(s.prestige(), Ok(()));
    assert_eq!(s.prestige_level, 1);
    assert_eq!(s.prestige_points, 7);
    assert_eq!(s.cookies, 0);
    assert_eq!(s.total_cookies_earned, 0);
    assert_eq!(s.cookies_per_second_milli, 0);
    // Every generator is back at count zero and base price.
    assert!(s.upgrades.iter().all(|u| u.count == 0 && u.cost == u.base_cost));
    // Multipliers and the click yield are untouched.
    assert_eq!(s.powerups[0].count, powerup_count_before);
    assert_eq!(s.cookies_per_click, click_yield_before);
    // Lifetime totals survive.
    assert_eq!(s.lifetime_cookies, 7_000_000);
}

#[test]
fn prestige_bonus_raises_production() {
    let mut s = GameState::default();
    s.cookies = 100_000_000_000;
    s.lifetime_cookies = s.cookies;
    s.prestige().unwrap();
    assert_eq!(s.prestige_level, 1);
    // At prestige level one a single base generator produces one
    // percent more: 100 * 101 / 100 = 101 milli per second.
    s.cookies = 15;
    s.purchase_generator(0).unwrap();
    assert_eq!(s.cookies_per_second_milli, 101);
}

#[test]
fn prestige_availability_and_progress() {
    let mut s = GameState::default();
    assert!(!s.prestige_available());
    assert_eq!(s.prestige_progress_percent(), 0);
    s.cookies = prestige_requirement(0) / 2;
    assert_eq!(s.prestige_progress_percent(), 50);
    s.cookies = prestige_requirement(0);
    assert!(s.prestige_available());
    assert_eq!(s.prestige_progress_percent(), 100);
}
