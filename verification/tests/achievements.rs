use clicker_core::achievements::{achievement_names_unique, get_achievements};
use clicker_core::state::GameState;

#[test]
fn fresh_state_unlocks_nothing() {
    let mut s = GameState::default();
    let newly = s.check_achievements(0);
    assert!(newly.is_empty());
    assert_eq!(s.achievements.unlocked_count(), 0);
}

#[test]
fn ten_clicks_unlock_first_steps_exactly_once() {
    let mut s = GameState::default();
    for _ in 0..10 {
        s.manual_action(1, 1);
    }
    let newly = s.check_achievements(0);
    assert_eq!(newly.len(), 1);
    assert_eq!(newly[0].0, "Premiers pas");
    assert_eq!(newly[0].1, "Cliquez 10 fois");
    assert_eq!(s.achievements.unlocked_count(), 1);
    // A second pass reports nothing new and re-locks nothing.
    let again = s.check_achievements(0);
    assert!(again.is_empty());
    assert_eq!(s.achievements.unlocked_count(), 1);
}

#[test]
fn unlock_flags_never_fall_back() {
    let mut s = GameState::default();
    for _ in 0..10 {
        s.manual_action(1, 1);
    }
    s.check_achievements(0);
    let flags_before: Vec<bool> = s.achievements.unlocked.clone();
    // Later passes under weaker circumstances keep every flag.
    s.check_achievements(0);
    s.check_achievements(0);
    for (before, after) in flags_before.iter().zip(s.achievements.unlocked.iter()) {
        assert!(!before || *after);
    }
}

#[test]
fn combo_achievements_use_the_passed_level() {
    let mut s = GameState::default();
    let newly = s.check_achievements(25);
    let names: Vec<&str> = newly.iter().map(|p| p.0.as_str()).collect();
    // Thresholds 10 and 25 are met; 100 is not. Catalog order is kept.
    assert_eq!(names, vec!["Encore un", "Combo naturel"]);
}

#[test]
fn generator_count_achievement() {
    let mut s = GameState::default();
    s.cookies = u128::MAX / 2;
    for _ in 0..50 {
        s.purchase_generator(0).unwrap();
    }
    let newly = s.check_achievements(0);
    assert!(newly.iter().any(|p| p.0 == "Collectionneur"));
    assert!(!newly.iter().any(|p| p.0 == "Colonisation"));
}

#[test]
fn prestige_achievement_and_survival_across_reset() {
    let mut s = GameState::default();
    for _ in 0..10 {
        s.manual_action(1, 1);
    }
    s.check_achievements(0);
    assert_eq!(s.achievements.unlocked_count(), 1);
    s.cookies = 100_000_000_000;
    s.prestige().unwrap();
    // Prestige re-locks nothing; the level-one achievement joins.
    let newly = s.check_achievements(0);
    assert!(newly.iter().any(|p| p.0 == "Renaissance"));
    assert_eq!(s.achievements.unlocked_count(), 2);
}

#[test]
fn achievement_catalog_keys_are_unique() {
    let list = get_achievements();
    assert!(achievement_names_unique(&list.achievements));
    assert_eq!(list.achievements.len(), 59);
    assert_eq!(list.unlocked.len(), 59);
}
