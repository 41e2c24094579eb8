//! The player's ship: its input actions, its spawn position, and the
//! movement parameters it is spawned with.

use vstd::prelude::*;

use crate::movement::{CharacterControllerBundle, MovementBundle};

verus! {

/// Input actions available while piloting the ship.
#[derive(Clone, Copy, Debug, PartialEq, Eq, Structural)]
pub enum PlayerAction {
    Idle,
    LeftThruster,
    RightThruster,
    MainThrusterBig,
    MainThrusterMedium,
    MainThrusterSmall,
}

/// Where the ship appears at the start of a round, in thousandths.
pub const INITIAL_SPACESHIP_POSITION_X: i64 = -300_000;

/// Where the ship appears at the start of a round, in thousandths.
pub const INITIAL_SPACESHIP_POSITION_Y: i64 = 300_000;

/// Depth layer the ship is drawn on, in thousandths.
pub const INITIAL_SPACESHIP_POSITION_Z: i64 = 2_000;

/// Horizontal thruster acceleration of the ship, in thousandths of a unit
/// per second squared.
pub const SPACESHIP_ACCELERATION: i64 = 550_000;

/// Fraction of the ship's horizontal velocity kept each physics tick, in
/// thousandths.
pub const SPACESHIP_DAMPING: i64 = 965;

/// Main-thruster impulse of the ship before the per-key strength factor, in
/// thousandths of a unit per second.
pub const SPACESHIP_JUMP_IMPULSE: i64 = 4_900;

/// The controller the ship is spawned with: the stock controller, its
/// movement parameters replaced by the ship's own.
pub fn spaceship_controller() -> (r: CharacterControllerBundle)
    ensures
        r.movement == (MovementBundle {
            acceleration: SPACESHIP_ACCELERATION as i64,
            damping: SPACESHIP_DAMPING as i64,
            jump_impulse: SPACESHIP_JUMP_IMPULSE as i64,
        }),
        r.movement.wf(),
{
    CharacterControllerBundle::new().with_movement(
        SPACESHIP_ACCELERATION,
        SPACESHIP_DAMPING,
        SPACESHIP_JUMP_IMPULSE,
    )
}

} // verus!
