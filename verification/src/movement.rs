//! Character-controller movement rules: the ready-to-land velocity gate,
//! thrust application with its fuel cost, and horizontal damping.
//!
//! Velocities are in thousandths of a world unit per second, accelerations in
//! thousandths of a unit per second squared, time steps in milliseconds, and
//! fuel in thousandths of a fuel unit; at those scales a thruster's fuel rate
//! per second equals its cost in thousandths per millisecond.

use vstd::prelude::*;

use crate::fixed::{div_trunc, div_trunc_exec, lemma_scale_within_unit_shrinks};

verus! {

/// Main-thruster strength applied by the big thrust key, in thousandths of
/// the jump impulse.
pub const BIG_THRUST: i64 = 750;

/// Main-thruster strength applied by the medium thrust key, in thousandths of
/// the jump impulse.
pub const MEDIUM_THRUST: i64 = 550;

/// Main-thruster strength applied by the small thrust key, in thousandths of
/// the jump impulse.
pub const SMALL_THRUST: i64 = 450;

/// Fuel burned per millisecond by a horizontal thruster, in thousandths.
pub const HORIZONTAL_BURN: i64 = 20;

/// Fuel burned per millisecond by the big main thruster, in thousandths.
pub const BIG_BURN: i64 = 100;

/// Fuel burned per millisecond by the medium main thruster, in thousandths.
pub const MEDIUM_BURN: i64 = 50;

/// Fuel burned per millisecond by the small main thruster, in thousandths.
pub const SMALL_BURN: i64 = 20;

/// Slowest upward velocity above which a touchdown is no longer safe.
pub const READY_MAX_VELOCITY: i64 = 1000;

/// Fastest descent velocity at which a touchdown is still safe.
pub const READY_MIN_VELOCITY: i64 = -35000;

/// Largest time step the movement rules accept, in milliseconds.
pub const MAX_STEP_MS: i64 = 10_000;

/// Largest magnitude the movement rules accept for a velocity component.
pub const MAX_VELOCITY: i64 = 1_000_000_000_000;

/// Largest acceleration or jump impulse the movement rules accept.
pub const MAX_ACCELERATION: i64 = 1_000_000_000;

/// Movement parameters of the character controller.
#[derive(Clone, Copy, Debug, PartialEq, Eq, Structural)]
pub struct MovementBundle {
    /// Horizontal thruster acceleration, in thousandths of a unit per second
    /// squared.
    pub acceleration: i64,
    /// Fraction of the horizontal velocity kept each physics tick, in
    /// thousandths.
    pub damping: i64,
    /// Main-thruster impulse before the per-key strength factor, in
    /// thousandths of a unit per second.
    pub jump_impulse: i64,
}

impl MovementBundle {
    /// The parameters a movement bundle may hold: a non-negative acceleration
    /// and impulse, and a damping factor of at most one whole unit.
    pub open spec fn wf(self) -> bool {
        &&& 0 <= self.acceleration <= MAX_ACCELERATION
        &&& 0 <= self.damping <= 1000
        &&& 0 <= self.jump_impulse <= MAX_ACCELERATION
    }

    /// Builds a movement bundle from its three parameters.
    pub fn new(acceleration: i64, damping: i64, jump_impulse: i64) -> (r: MovementBundle)
        ensures
            r == (MovementBundle { acceleration, damping, jump_impulse }),
    {
        MovementBundle { acceleration, damping, jump_impulse }
    }
}

impl Default for MovementBundle {
    /// The stock movement parameters: an acceleration of thirty units per
    /// second squared, a damping factor of nine tenths, and a jump impulse of
    /// seven units per second.
    fn default() -> (r: MovementBundle)
        ensures
            r == (MovementBundle { acceleration: 30_000i64, damping: 900i64, jump_impulse: 7_000i64 }),
    {
        MovementBundle { acceleration: 30_000, damping: 900, jump_impulse: 7_000 }
    }
}

/// Movement-facing slice of the character controller: the physics body and
/// collider live with the engine, the movement parameters here.
#[derive(Clone, Copy, Debug, PartialEq, Eq, Structural)]
pub struct CharacterControllerBundle {
    /// The controller's movement parameters.
    pub movement: MovementBundle,
}

impl CharacterControllerBundle {
    /// Builds a controller with the stock movement parameters.
    pub fn new() -> (r: CharacterControllerBundle)
        ensures
            r.movement == (MovementBundle {
                acceleration: 30_000i64,
                damping: 900i64,
                jump_impulse: 7_000i64,
            }),
    {
        CharacterControllerBundle { movement: MovementBundle::default() }
    }

    /// Replaces the controller's movement parameters.
    pub fn with_movement(self, acceleration: i64, damping: i64, jump_impulse: i64) -> (r:
        CharacterControllerBundle)
        ensures
            r.movement == (MovementBundle { acceleration, damping, jump_impulse }),
    {
        CharacterControllerBundle { movement: MovementBundle::new(acceleration, damping, jump_impulse) }
    }
}

/// Whether a vertical velocity counts as a safe touchdown: descending slower
/// than thirty-five units per second, rising slower than one.
pub open spec fn ready_to_land_spec(vy: int) -> bool {
    READY_MIN_VELOCITY < vy < READY_MAX_VELOCITY
}

/// Decides whether the lander's vertical velocity is within the safe
/// touchdown window.
pub fn ready_to_land(vy: i64) -> (r: bool)
    ensures
        r == ready_to_land_spec(vy as int),
{
    vy < READY_MAX_VELOCITY && vy > READY_MIN_VELOCITY
}

/// Thruster keys held during one movement step.
#[derive(Clone, Copy, Debug, PartialEq, Eq, Structural)]
pub struct ThrustInput {
    /// Left thruster, pushing the ship toward positive x.
    pub left: bool,
    /// Right thruster, pushing the ship toward negative x.
    pub right: bool,
    /// Big main thruster.
    pub big: bool,
    /// Medium main thruster.
    pub medium: bool,
    /// Small main thruster.
    pub small: bool,
}

/// Horizontal velocity change of one movement step.
pub open spec fn thrust_dvx(input: ThrustInput, acceleration: int, dt_ms: int) -> int {
    (if input.left {
        acceleration * dt_ms / 1000
    } else {
        0
    }) - (if input.right {
        acceleration * dt_ms / 1000
    } else {
        0
    })
}

/// Vertical velocity change of one movement step.
pub open spec fn thrust_dvy(input: ThrustInput, jump_impulse: int) -> int {
    (if input.big {
        jump_impulse * BIG_THRUST / 1000
    } else {
        0
    }) + (if input.medium {
        jump_impulse * MEDIUM_THRUST / 1000
    } else {
        0
    }) + (if input.small {
        jump_impulse * SMALL_THRUST / 1000
    } else {
        0
    })
}

/// Fuel burned by one movement step, in thousandths.
pub open spec fn fuel_burn(input: ThrustInput, dt_ms: int) -> int {
    (if input.left {
        HORIZONTAL_BURN * dt_ms
    } else {
        0
    }) + (if input.right {
        HORIZONTAL_BURN * dt_ms
    } else {
        0
    }) + (if input.big {
        BIG_BURN * dt_ms
    } else {
        0
    }) + (if input.medium {
        MEDIUM_BURN * dt_ms
    } else {
        0
    }) + (if input.small {
        SMALL_BURN * dt_ms
    } else {
        0
    })
}

/// Result of one movement step.
#[derive(Clone, Copy, Debug, PartialEq, Eq, Structural)]
pub struct MovementOutcome {
    /// Horizontal velocity after the step.
    pub vx: i64,
    /// Vertical velocity after the step.
    pub vy: i64,
    /// Fuel left after the step, in thousandths.
    pub fuel_quantity: i64,
    /// Whether the step exhausted the fuel.
    pub out_of_fuel: bool,
}

/// Applies one movement step: with fuel left, each held thruster changes the
/// velocity and burns fuel for the step's duration; the step reports fuel
/// exhaustion when the burn takes the fuel below zero. Without fuel, thrust
/// is inert.
pub fn movement_step(
    fuel_quantity: i64,
    input: ThrustInput,
    acceleration: i64,
    jump_impulse: i64,
    dt_ms: i64,
    vx: i64,
    vy: i64,
) -> (r: MovementOutcome)
    requires
        0 <= dt_ms <= MAX_STEP_MS,
        0 <= acceleration <= MAX_ACCELERATION,
        0 <= jump_impulse <= MAX_ACCELERATION,
        -MAX_VELOCITY <= vx <= MAX_VELOCITY,
        -MAX_VELOCITY <= vy <= MAX_VELOCITY,
        -MAX_VELOCITY <= fuel_quantity <= MAX_VELOCITY,
    ensures
        fuel_quantity <= 0 ==> r == (MovementOutcome {
            vx,
            vy,
            fuel_quantity,
            out_of_fuel: false,
        }),
        fuel_quantity > 0 ==> {
            &&& r.vx == vx + thrust_dvx(input, acceleration as int, dt_ms as int)
            &&& r.vy == vy + thrust_dvy(input, jump_impulse as int)
            &&& r.fuel_quantity == fuel_quantity - fuel_burn(input, dt_ms as int)
            &&& r.out_of_fuel == (r.fuel_quantity < 0)
        },
        r.fuel_quantity <= fuel_quantity,
{
    if fuel_quantity <= 0 {
        return MovementOutcome { vx, vy, fuel_quantity, out_of_fuel: false };
    }
    let mut new_vx = vx;
    let mut new_vy = vy;
    let mut fuel = fuel_quantity;
    proof {
        assert(0 <= acceleration as int * dt_ms as int <= 10_000_000_000_000) by (nonlinear_arith)
            requires
                0 <= acceleration <= MAX_ACCELERATION,
                0 <= dt_ms <= MAX_STEP_MS,
        ;
    }
    let horizontal_dv = div_trunc_exec(acceleration * dt_ms, 1000);
    assert(horizontal_dv == acceleration * dt_ms / 1000);
    if input.left {
        new_vx = new_vx + horizontal_dv;
        fuel = fuel - HORIZONTAL_BURN * dt_ms;
    }
    if input.right {
        new_vx = new_vx - horizontal_dv;
        fuel = fuel - HORIZONTAL_BURN * dt_ms;
    }
    if input.big {
        new_vy = new_vy + div_trunc_exec(jump_impulse * BIG_THRUST, 1000);
        fuel = fuel - BIG_BURN * dt_ms;
    }
    if input.medium {
        new_vy = new_vy + div_trunc_exec(jump_impulse * MEDIUM_THRUST, 1000);
        fuel = fuel - MEDIUM_BURN * dt_ms;
    }
    if input.small {
        new_vy = new_vy + div_trunc_exec(jump_impulse * SMALL_THRUST, 1000);
        fuel = fuel - SMALL_BURN * dt_ms;
    }
    MovementOutcome { vx: new_vx, vy: new_vy, fuel_quantity: fuel, out_of_fuel: fuel < 0 }
}

/// Applies the per-tick horizontal damping: the velocity is scaled by the
/// damping factor, and its magnitude never grows.
pub fn damping_step(vx: i64, damping: i64) -> (r: i64)
    requires
        0 <= damping <= 1000,
        -MAX_VELOCITY <= vx <= MAX_VELOCITY,
    ensures
        r == div_trunc(vx as int * damping as int, 1000),
        vx >= 0 ==> 0 <= r <= vx,
        vx < 0 ==> vx <= r <= 0,
{
    proof {
        lemma_scale_within_unit_shrinks(vx as int, damping as int);
    }
    div_trunc_exec(vx * damping, 1000)
}

} // verus!
