use clicker_core::cost_curve::{generator_price, multiplier_price, prestige_requirement};
use clicker_core::format::{format_number, milestone_label};

#[test]
fn small_numbers_print_in_full() {
    assert_eq!(format_number(0), "0");
    assert_eq!(format_number(7), "7");
    assert_eq!(format_number(999), "999");
}

#[test]
fn thousands_get_suffixes_and_rounding() {
    assert_eq!(format_number(1_000), "1.000K");
    assert_eq!(format_number(1_234), "1.234K");
    // 12.345 rounds half-up at two decimals.
    assert_eq!(format_number(12_345), "12.35K");
    assert_eq!(format_number(999_999), "1000.0K");
    assert_eq!(format_number(1_000_000), "1.000M");
    assert_eq!(format_number(1_500_000), "1.500M");
    assert_eq!(format_number(123_456_789), "123.5M");
    assert_eq!(format_number(1_000_000_000), "1.000B");
    assert_eq!(format_number(1_000_000_000_000), "1.000T");
    assert_eq!(format_number(2_500_000_000_000_000), "2.500Qa");
}

#[test]
fn late_game_magnitudes_format_cleanly() {
    assert_eq!(format_number(10u128.pow(24)), "1.000Sp");
    assert_eq!(format_number(10u128.pow(36)), "1.000Ud");
    assert_eq!(format_number(u128::MAX), "340.3Ud");
}

#[test]
fn cost_curve_exact_values() {
    // One 15%-step from 15 truncates to 17; two reach 19.
    assert_eq!(generator_price(15, 0, 0), 15);
    assert_eq!(generator_price(15, 1, 0), 17);
    assert_eq!(generator_price(15, 2, 0), 19);
    // A tier-one discount applies once to the base before growth.
    assert_eq!(generator_price(1_000_000_000_000, 1, 1), 1_138_500_000_000);
    // Multipliers grow by 20% per unit with no discount.
    assert_eq!(multiplier_price(100, 0), 100);
    assert_eq!(multiplier_price(100, 1), 120);
    assert_eq!(multiplier_price(100, 2), 144);
}

#[test]
fn requirement_saturates_instead_of_wrapping() {
    assert!(prestige_requirement(u64::MAX) == u128::MAX);
}

#[test]
fn milestone_ladder_boundaries() {
    assert_eq!(milestone_label(0), "Debutante");
    assert_eq!(milestone_label(999), "Debutante");
    assert_eq!(milestone_label(1_000), "Novice du Sucre");
    assert_eq!(milestone_label(9_999), "Novice du Sucre");
    assert_eq!(milestone_label(10_000), "Apprentie Boulangere");
    assert_eq!(milestone_label(1_000_000), "Maitresse Boulangere");
    assert_eq!(milestone_label(999_999_999_999_999_999_999), "Entite Supreme du Four");
    assert_eq!(milestone_label(1_000_000_000_000_000_000_000), "Deesse des Cookies");
    assert_eq!(milestone_label(u128::MAX), "Deesse des Cookies");
}
