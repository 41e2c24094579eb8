//! Scoring, fuel and gravity progression.

use rusty_lander::collider::Platform;
use rusty_lander::game::{
    apply_landing, crash_fuel_penalty, game_over_refuel, points_from_velocity, BestScoreSoFar,
    Scores, FUEL_QUANTITY,
};
use rusty_lander::state::GameState;
use rusty_lander::text::{decimal_string, landing_summary};

#[test]
fn dummy_test() {
    let test = 1;
    assert_eq!(test, 1);
}

#[test]
fn points_at_zero_velocity_are_the_base() {
    assert_eq!(points_from_velocity(0), 720);
}

#[test]
fn points_for_a_soft_descent() {
    // -12.5 units per second: 1457 * -12500 / 100000 truncates to -182.
    assert_eq!(points_from_velocity(-12_500), 538);
}

#[test]
fn points_at_the_window_edges() {
    assert_eq!(points_from_velocity(-34_999), 211);
    assert_eq!(points_from_velocity(999), 734);
}

#[test]
fn landing_on_the_ten_fold_platform() {
    let mut scores = Scores::new();
    let mut best = BestScoreSoFar::default();
    apply_landing(&mut scores, &mut best, Platform { factor: 10 }, -12_500);
    assert_eq!(scores.score, 5380);
    assert_eq!(scores.hi_score, 5380);
    // The tank was full, so nothing could be refilled.
    assert_eq!(scores.fuel_quantity, FUEL_QUANTITY);
    assert_eq!(scores.gravity, 1100);
    assert_eq!(best.hi_score, 5380);
    assert_eq!(best.gravity, 1100);
}

#[test]
fn landing_refills_a_fifth_of_the_award() {
    let mut scores = Scores::new();
    scores.fuel_quantity = 100_000;
    let mut best = BestScoreSoFar::default();
    // Factor 2 at -12.5 u/s: 538 points, award 1076, room for 900 units.
    apply_landing(&mut scores, &mut best, Platform { factor: 2 }, -12_500);
    assert_eq!(scores.score, 1076);
    assert_eq!(scores.fuel_quantity, 100_000 + 900 * 200);
}

#[test]
fn landing_refill_never_passes_the_tank() {
    let mut scores = Scores::new();
    scores.fuel_quantity = 999_999;
    let mut best = BestScoreSoFar::default();
    apply_landing(&mut scores, &mut best, Platform { factor: 5 }, -1_000);
    // Less than a whole unit of room truncates to no refill at all.
    assert_eq!(scores.fuel_quantity, 999_999);
    assert!(scores.fuel_quantity <= FUEL_QUANTITY);
}

#[test]
fn displayed_best_keeps_the_persisted_one() {
    let mut scores = Scores::new();
    let mut best = BestScoreSoFar {
        hi_score: 100_000,
        gravity: 2_000,
    };
    apply_landing(&mut scores, &mut best, Platform { factor: 2 }, 0);
    // 2 * 720 = 1440 does not beat the persisted 100000.
    assert_eq!(scores.score, 1440);
    assert_eq!(scores.hi_score, 100_000);
    assert_eq!(best.hi_score, 100_000);
    // Gravity grew to 1100 but the persisted best stays at 2000.
    assert_eq!(scores.gravity, 1100);
    assert_eq!(best.gravity, 2_000);
}

#[test]
fn consecutive_landings_ramp_gravity() {
    let mut scores = Scores::new();
    let mut best = BestScoreSoFar::default();
    apply_landing(&mut scores, &mut best, Platform { factor: 2 }, 0);
    apply_landing(&mut scores, &mut best, Platform { factor: 2 }, 0);
    apply_landing(&mut scores, &mut best, Platform { factor: 2 }, 0);
    assert_eq!(scores.gravity, 1300);
    assert_eq!(best.gravity, 1300);
    assert_eq!(scores.score, 3 * 1440);
}

#[test]
fn crash_with_fuel_left_sets_the_round_up_again() {
    let mut scores = Scores::new();
    scores.fuel_quantity = 150_000;
    scores.score = 2500;
    let next = crash_fuel_penalty(&mut scores);
    assert_eq!(next, GameState::Setup);
    assert_eq!(scores.fuel_quantity, 50_000);
    assert_eq!(scores.score, 2500);
}

#[test]
fn crash_on_a_dry_tank_ends_the_game() {
    let mut scores = Scores::new();
    scores.fuel_quantity = 100_000;
    scores.score = 2500;
    let next = crash_fuel_penalty(&mut scores);
    assert_eq!(next, GameState::GameOver);
    assert_eq!(scores.fuel_quantity, 0);
    assert_eq!(scores.score, 0);
}

#[test]
fn crash_below_empty_also_ends_the_game() {
    let mut scores = Scores::new();
    scores.fuel_quantity = -500;
    let next = crash_fuel_penalty(&mut scores);
    assert_eq!(next, GameState::GameOver);
    assert_eq!(scores.fuel_quantity, -100_500);
    assert_eq!(scores.score, 0);
}

#[test]
fn game_over_refills_the_tank() {
    let mut scores = Scores::new();
    scores.fuel_quantity = -100_500;
    scores.score = 0;
    scores.gravity = 1_700;
    game_over_refuel(&mut scores);
    assert_eq!(scores.fuel_quantity, FUEL_QUANTITY);
    assert_eq!(scores.gravity, 1_700);
}

#[test]
fn decimal_rendering() {
    assert_eq!(decimal_string(0), "0");
    assert_eq!(decimal_string(7), "7");
    assert_eq!(decimal_string(5380), "5380");
    assert_eq!(decimal_string(1_000_000), "1000000");
    assert_eq!(decimal_string(u32::MAX), "4294967295");
}

#[test]
fn landing_panel_line() {
    assert_eq!(landing_summary(538, 10, 5380), "538 x 10 = 5380");
    assert_eq!(landing_summary(720, 2, 1440), "720 x 2 = 1440");
}

#[test]
fn available_fuel_is_the_room_left() {
    let mut scores = Scores::new();
    assert_eq!(scores.get_available_fuel_quantity(), 0);
    scores.fuel_quantity = 250_000;
    assert_eq!(scores.get_available_fuel_quantity(), 750_000);
}
