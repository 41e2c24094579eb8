//! Thrust, fuel burn, damping, the landing gate and the cockpit gauges.

use rusty_lander::camera::{platform_proximity, within_proximity, PROXIMITY_RADIUS};
use rusty_lander::movement::{
    damping_step, movement_step, ready_to_land, CharacterControllerBundle, MovementBundle,
    ThrustInput,
};
use rusty_lander::spaceship::spaceship_controller;
use rusty_lander::speedometer::speed_indicator_y;

fn no_thrust() -> ThrustInput {
    ThrustInput {
        left: false,
        right: false,
        big: false,
        medium: false,
        small: false,
    }
}

#[test]
fn landing_gate_window() {
    assert!(ready_to_land(0));
    assert!(ready_to_land(-34_999));
    assert!(ready_to_land(999));
    assert!(!ready_to_land(-35_000));
    assert!(!ready_to_land(1_000));
    assert!(!ready_to_land(50_000));
}

#[test]
fn thrust_changes_velocity_and_burns_fuel() {
    let input = ThrustInput {
        left: true,
        big: true,
        ..no_thrust()
    };
    // The ship's parameters, a 100 ms step.
    let r = movement_step(1_000_000, input, 550_000, 4_900, 100, 0, -20_000);
    assert_eq!(r.vx, 55_000); // 550 u/s^2 for a tenth of a second
    assert_eq!(r.vy, -20_000 + 3_675); // 4.9 * 0.75 upward
    assert_eq!(r.fuel_quantity, 1_000_000 - 2_000 - 10_000);
    assert!(!r.out_of_fuel);
}

#[test]
fn medium_and_small_thrust_strengths() {
    let input = ThrustInput {
        medium: true,
        small: true,
        ..no_thrust()
    };
    let r = movement_step(1_000_000, input, 550_000, 4_900, 100, 0, 0);
    assert_eq!(r.vy, 2_695 + 2_205); // 4.9 * 0.55 and 4.9 * 0.45
    assert_eq!(r.fuel_quantity, 1_000_000 - 5_000 - 2_000);
}

#[test]
fn opposite_thrusters_cancel_but_both_burn() {
    let input = ThrustInput {
        left: true,
        right: true,
        ..no_thrust()
    };
    let r = movement_step(1_000_000, input, 550_000, 4_900, 100, 7_000, 0);
    assert_eq!(r.vx, 7_000);
    assert_eq!(r.fuel_quantity, 1_000_000 - 4_000);
}

#[test]
fn thrust_without_fuel_is_inert() {
    let input = ThrustInput {
        big: true,
        ..no_thrust()
    };
    let r = movement_step(0, input, 550_000, 4_900, 100, 11_000, -9_000);
    assert_eq!(r.vx, 11_000);
    assert_eq!(r.vy, -9_000);
    assert_eq!(r.fuel_quantity, 0);
    assert!(!r.out_of_fuel);
}

#[test]
fn overdrawing_the_tank_reports_out_of_fuel() {
    let input = ThrustInput {
        big: true,
        ..no_thrust()
    };
    let r = movement_step(1_000, input, 550_000, 4_900, 100, 0, 0);
    assert_eq!(r.fuel_quantity, -9_000);
    assert!(r.out_of_fuel);
}

#[test]
fn damping_scales_velocity_toward_zero() {
    assert_eq!(damping_step(120_000, 965), 115_800);
    assert_eq!(damping_step(-120_000, 965), -115_800);
    assert_eq!(damping_step(120_000, 1_000), 120_000);
    assert_eq!(damping_step(0, 965), 0);
}

#[test]
fn stock_and_ship_movement_parameters() {
    let stock: MovementBundle = Default::default();
    assert_eq!(stock.acceleration, 30_000);
    assert_eq!(stock.damping, 900);
    assert_eq!(stock.jump_impulse, 7_000);
    let fresh = CharacterControllerBundle::new();
    assert_eq!(fresh.movement, stock);
    let ship = spaceship_controller();
    assert_eq!(ship.movement.acceleration, 550_000);
    assert_eq!(ship.movement.damping, 965);
    assert_eq!(ship.movement.jump_impulse, 4_900);
}

#[test]
fn speed_indicator_follows_velocity_on_the_scale() {
    assert_eq!(speed_indicator_y(0, -12_500), -12_500);
    assert_eq!(speed_indicator_y(-12_500, 299_999), 299_999);
    assert_eq!(speed_indicator_y(-12_500, 300_000), -12_500);
    assert_eq!(speed_indicator_y(-12_500, -300_000), -12_500);
}

#[test]
fn proximity_is_strictly_inside_the_radius() {
    assert!(within_proximity(0, 0, 0, 0, PROXIMITY_RADIUS - 1, 0, PROXIMITY_RADIUS));
    assert!(!within_proximity(0, 0, 0, 0, PROXIMITY_RADIUS, 0, PROXIMITY_RADIUS));
    // The depth offset counts toward the distance.
    assert!(!within_proximity(0, 0, 0, PROXIMITY_RADIUS - 1, 0, 100_000, PROXIMITY_RADIUS));
}

#[test]
fn ship_over_a_platform_is_near_only_that_platform() {
    // Hovering on the double-score platform's center, one layer above it.
    let (near_2x, near_5x, near_10x) = platform_proximity(114_000, 164_000, 2_000);
    assert!(near_2x);
    assert!(!near_5x);
    assert!(!near_10x);
    let (far_2x, near_5x, far_10x) = platform_proximity(-287_000, -222_000, 2_000);
    assert!(!far_2x);
    assert!(near_5x);
    assert!(!far_10x);
}
