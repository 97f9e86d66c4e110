use clicker_core::combo::{ComboSystem, COMBO_WINDOW_MS};
use clicker_core::state::GameState;

#[test]
fn ten_rapid_actions_reach_level_one() {
    let mut c = ComboSystem::new();
    for _ in 0..9 {
        c.record_action();
        assert_eq!(c.level(), 0);
    }
    c.record_action();
    assert_eq!(c.level(), 1);
    assert_eq!(c.multiplier(), 2);
}

#[test]
fn decay_window_resets_the_streak() {
    let mut c = ComboSystem::new();
    for _ in 0..10 {
        c.record_action();
    }
    assert_eq!(c.level(), 1);
    // Inactivity shorter than the window keeps the streak.
    c.tick(COMBO_WINDOW_MS - 1);
    assert!(c.is_active());
    assert_eq!(c.level(), 1);
    // The remaining millisecond elapses: everything resets.
    c.tick(1);
    assert!(!c.is_active());
    assert_eq!(c.level(), 0);
    assert_eq!(c.multiplier(), 1);
    // The next action starts a fresh streak.
    c.record_action();
    assert_eq!(c.level(), 0);
    assert!(c.is_active());
}

#[test]
fn actions_inside_window_rewind_the_timer() {
    let mut c = ComboSystem::new();
    c.record_action();
    c.tick(COMBO_WINDOW_MS - 500);
    c.record_action();
    // The window was rewound, so the old deadline no longer applies.
    c.tick(COMBO_WINDOW_MS - 500);
    assert!(c.is_active());
}

#[test]
fn idle_machine_ignores_ticks() {
    let mut c = ComboSystem::new();
    c.tick(10_000);
    assert!(!c.is_active());
    assert_eq!(c.level(), 0);
}

#[test]
fn combo_boundary_applies_to_the_next_action_only() {
    // Fresh state, base click yield 1, ten manual actions inside the
    // window: balance 10, because the level-one combo reached on the
    // tenth action multiplies later actions, not itself.
    let mut s = GameState::default();
    let mut c = ComboSystem::new();
    for _ in 0..10 {
        let m = c.multiplier();
        s.manual_action(1, m);
        c.record_action();
    }
    assert_eq!(s.cookies, 10);
    assert_eq!(c.level(), 1);
    // The eleventh action is the first one doubled.
    let m = c.multiplier();
    assert_eq!(m, 2);
    s.manual_action(1, m);
    assert_eq!(s.cookies, 12);
}
