use clicker_core::state::{EconomyError, GameState};

#[test]
fn fresh_state_is_zeroed() {
    let s = GameState::default();
    assert_eq!(s.cookies, 0);
    assert_eq!(s.total_cookies_earned, 0);
    assert_eq!(s.lifetime_cookies, 0);
    assert_eq!(s.click_count, 0);
    assert_eq!(s.golden_cookies_clicked, 0);
    assert_eq!(s.prestige_level, 0);
    assert_eq!(s.prestige_points, 0);
    assert_eq!(s.cookies_per_second_milli, 0);
    assert_eq!(s.cookies_per_click, 1);
    assert_eq!(s.upgrades.len(), 41);
    assert_eq!(s.powerups.len(), 50);
    assert!(s.upgrades.iter().all(|u| u.count == 0 && u.cost == u.base_cost));
    assert!(s.powerups.iter().all(|p| p.count == 0 && p.cost == p.base_cost));
}

#[test]
fn manual_action_credits_and_counts() {
    let mut s = GameState::default();
    let earned = s.manual_action(1, 1);
    assert_eq!(earned, 1);
    assert_eq!(s.cookies, 1);
    assert_eq!(s.lifetime_cookies, 1);
    assert_eq!(s.total_cookies_earned, 1);
    assert_eq!(s.click_count, 1);
    let earned = s.manual_action(5, 3);
    assert_eq!(earned, 15);
    assert_eq!(s.cookies, 16);
    assert_eq!(s.click_count, 2);
}

#[test]
fn purchase_generator_rejects_bad_index() {
    let mut s = GameState::default();
    assert_eq!(s.purchase_generator(41), Err(EconomyError::IndexOutOfRange));
    assert_eq!(s.purchase_generator(usize::MAX), Err(EconomyError::IndexOutOfRange));
}

#[test]
fn purchase_generator_rejects_poverty() {
    let mut s = GameState::default();
    // The first generator costs 15; a balance of 14 is one short.
    s.cookies = 14;
    assert_eq!(s.purchase_generator(0), Err(EconomyError::InsufficientFunds));
    assert_eq!(s.cookies, 14);
    assert_eq!(s.upgrades[0].count, 0);
}

#[test]
fn purchase_generator_succeeds_exactly_at_price() {
    let mut s = GameState::default();
    s.cookies = 15;
    assert_eq!(s.purchase_generator(0), Ok(()));
    assert_eq!(s.cookies, 0);
    assert_eq!(s.upgrades[0].count, 1);
    // 15 * 115 / 100 truncates to 17.
    assert_eq!(s.upgrades[0].cost, 17);
    // Yield 0.1/s at count 1, no prestige bonus: 100 milli per second.
    assert_eq!(s.cookies_per_second_milli, 100);
}

#[test]
fn generator_price_climbs_strictly() {
    let mut s = GameState::default();
    s.cookies = 1_000_000;
    let mut last = s.upgrades[0].cost;
    for _ in 0..20 {
        s.purchase_generator(0).unwrap();
        assert!(s.upgrades[0].cost > last);
        last = s.upgrades[0].cost;
    }
}

#[test]
fn purchase_multiplier_raises_click_yield() {
    let mut s = GameState::default();
    s.cookies = 100;
    assert_eq!(s.purchase_multiplier(0), Ok(()));
    assert_eq!(s.cookies, 0);
    assert_eq!(s.powerups[0].count, 1);
    // 100 * 120 / 100 = 120.
    assert_eq!(s.powerups[0].cost, 120);
    // Base click 1 plus one bonus of 1.
    assert_eq!(s.cookies_per_click, 2);
}

#[test]
fn purchase_multiplier_rejects_bad_index_and_poverty() {
    let mut s = GameState::default();
    assert_eq!(s.purchase_multiplier(50), Err(EconomyError::IndexOutOfRange));
    s.cookies = 99;
    assert_eq!(s.purchase_multiplier(0), Err(EconomyError::InsufficientFunds));
    assert_eq!(s.cookies, 99);
}

#[test]
fn tick_credits_truncated_production() {
    let mut s = GameState::default();
    s.cookies = 15;
    s.purchase_generator(0).unwrap();
    assert_eq!(s.cookies, 0);
    // 100 milli/s over 10 seconds is exactly 1 cookie.
    s.tick(10_000);
    assert_eq!(s.cookies, 1);
    // Half a cookie truncates to nothing.
    s.tick(5_000);
    assert_eq!(s.cookies, 1);
    // A long catch-up tick credits the whole span at once.
    s.tick(3_600_000);
    assert_eq!(s.cookies, 361);
}

#[test]
fn tick_on_idle_state_earns_nothing() {
    let mut s = GameState::default();
    s.tick(1_000_000);
    assert_eq!(s.cookies, 0);
    assert_eq!(s.lifetime_cookies, 0);
}

#[test]
fn special_bonus_applies_floor() {
    let mut s = GameState::default();
    let earned = s.collect_special_bonus(0, 7);
    assert_eq!(earned, 2000);
    assert_eq!(s.cookies, 2000);
    assert_eq!(s.golden_cookies_clicked, 1);
}

#[test]
fn special_bonus_scales_with_rate() {
    let mut s = GameState::default();
    let earned = s.collect_special_bonus(100, 7);
    assert_eq!(earned, 100 * 7 * 60);
    assert_eq!(s.golden_cookies_clicked, 1);
}

#[test]
fn saturating_ledger_never_wraps() {
    let mut s = GameState::default();
    s.cookies = u128::MAX - 1;
    s.lifetime_cookies = u128::MAX - 1;
    let earned = s.manual_action(10, 1);
    assert_eq!(earned, 10);
    assert_eq!(s.cookies, u128::MAX);
    assert_eq!(s.lifetime_cookies, u128::MAX);
}
