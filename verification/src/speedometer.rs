//! The speed bar's black indicator, which tracks the lander's vertical
//! velocity while that velocity stays on the scale.

use vstd::prelude::*;

verus! {

/// Half-height of the speed bar: velocities of this magnitude or more fall
/// off the scale, in thousandths of a unit per second.
pub const SPEED_BAR_LIMIT: i64 = 300_000;

/// Where the black indicator sits after a physics tick: at the vertical
/// velocity while it is strictly within the scale, otherwise wherever it
/// already was.
pub open spec fn speed_indicator_spec(current_y: int, vy: int) -> int {
    if -SPEED_BAR_LIMIT < vy < SPEED_BAR_LIMIT {
        vy
    } else {
        current_y
    }
}

/// Moves the speed bar's black indicator for a vertical velocity `vy`, given
/// the indicator's current position.
pub fn speed_indicator_y(current_y: i64, vy: i64) -> (r: i64)
    ensures
        r == speed_indicator_spec(current_y as int, vy as int),
{
    if vy < SPEED_BAR_LIMIT && vy > -SPEED_BAR_LIMIT {
        vy
    } else {
        current_y
    }
}

} // verus!
