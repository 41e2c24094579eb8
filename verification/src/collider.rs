//! The landing zones and the interpretation of a collision while landing:
//! a touchdown on a platform within the safe-velocity window scores, any
//! other contact is a crash.

use vstd::prelude::*;

use crate::state::GameState;

verus! {

/// A scoring landing zone; its factor multiplies the touchdown points.
#[derive(Clone, Copy, Debug, PartialEq, Eq, Structural)]
pub struct Platform {
    /// Score multiplier of this platform.
    pub factor: i32,
}

impl Platform {
    /// The factors the game's three platforms carry.
    pub open spec fn wf(self) -> bool {
        self.factor == 2 || self.factor == 5 || self.factor == 10
    }
}

/// Geometry and factor of one landing zone, in thousandths of a world unit.
#[derive(Clone, Copy, Debug, PartialEq, Eq, Structural)]
pub struct PlatformSpec {
    /// Center of the platform's collider.
    pub center_x: i64,
    /// Center of the platform's collider.
    pub center_y: i64,
    /// Depth layer of the platform's center.
    pub center_z: i64,
    /// Width of the platform's rectangle.
    pub width: i64,
    /// Height of the platform's rectangle.
    pub height: i64,
    /// Score multiplier of the platform.
    pub platform: Platform,
}

/// Center of the double-score platform, in thousandths.
pub const PLATFORM_2X_CENTER_X: i64 = 114_000;

/// Center of the double-score platform, in thousandths.
pub const PLATFORM_2X_CENTER_Y: i64 = 164_000;

/// Center of the five-fold platform, in thousandths.
pub const PLATFORM_5X_CENTER_X: i64 = -287_000;

/// Center of the five-fold platform, in thousandths.
pub const PLATFORM_5X_CENTER_Y: i64 = -222_000;

/// Center of the ten-fold platform, in thousandths.
pub const PLATFORM_10X_CENTER_X: i64 = 230_000;

/// Center of the ten-fold platform, in thousandths.
pub const PLATFORM_10X_CENTER_Y: i64 = -104_000;

/// Depth layer all three platform centers sit on, in thousandths.
pub const PLATFORM_CENTER_Z: i64 = 1_000;

/// The three landing zones of the landscape, ordered by rising factor.
pub fn platform_specs() -> (r: Vec<PlatformSpec>)
    ensures
        r@.len() == 3,
        r@[0] == (PlatformSpec {
            center_x: PLATFORM_2X_CENTER_X as i64,
            center_y: PLATFORM_2X_CENTER_Y as i64,
            center_z: PLATFORM_CENTER_Z as i64,
            width: 185_000i64,
            height: 8_000i64,
            platform: Platform { factor: 2i32 },
        }),
        r@[1] == (PlatformSpec {
            center_x: PLATFORM_5X_CENTER_X as i64,
            center_y: PLATFORM_5X_CENTER_Y as i64,
            center_z: PLATFORM_CENTER_Z as i64,
            width: 200_000i64,
            height: 8_000i64,
            platform: Platform { factor: 5i32 },
        }),
        r@[2] == (PlatformSpec {
            center_x: PLATFORM_10X_CENTER_X as i64,
            center_y: PLATFORM_10X_CENTER_Y as i64,
            center_z: PLATFORM_CENTER_Z as i64,
            width: 120_000i64,
            height: 8_000i64,
            platform: Platform { factor: 10i32 },
        }),
        forall|i: int| 0 <= i < 3 ==> (#[trigger] r@[i]).platform.wf(),
{
    let mut specs: Vec<PlatformSpec> = Vec::new();
    specs.push(
        PlatformSpec {
            center_x: PLATFORM_2X_CENTER_X,
            center_y: PLATFORM_2X_CENTER_Y,
            center_z: PLATFORM_CENTER_Z,
            width: 185_000,
            height: 8_000,
            platform: Platform { factor: 2 },
        },
    );
    specs.push(
        PlatformSpec {
            center_x: PLATFORM_5X_CENTER_X,
            center_y: PLATFORM_5X_CENTER_Y,
            center_z: PLATFORM_CENTER_Z,
            width: 200_000,
            height: 8_000,
            platform: Platform { factor: 5 },
        },
    );
    specs.push(
        PlatformSpec {
            center_x: PLATFORM_10X_CENTER_X,
            center_y: PLATFORM_10X_CENTER_Y,
            center_z: PLATFORM_CENTER_Z,
            width: 120_000,
            height: 8_000,
            platform: Platform { factor: 10 },
        },
    );
    specs
}

/// Corners of the rectangular world-bounds polyline, in thousandths, in the
/// order the collider is built from.
pub fn world_bounds_polyline() -> (r: Vec<(i64, i64)>)
    ensures
        r@ == seq![
            (-547_000i64, 10_360_000i64),
            (-547_000i64, -300_000i64),
            (482_000i64, -300_000i64),
            (482_000i64, 10_360_000i64),
        ],
{
    let mut corners: Vec<(i64, i64)> = Vec::new();
    corners.push((-547_000, 10_360_000));
    corners.push((-547_000, -300_000));
    corners.push((482_000, -300_000));
    corners.push((482_000, 10_360_000));
    proof {
        assert(corners@ =~= seq![
            (-547_000i64, 10_360_000i64),
            (-547_000i64, -300_000i64),
            (482_000i64, -300_000i64),
            (482_000i64, 10_360_000i64),
        ]);
    }
    corners
}

/// How a collision during a landing attempt resolves.
#[derive(Clone, Copy, Debug, PartialEq, Eq, Structural)]
pub enum ContactOutcome {
    /// Nothing was touched; the attempt continues.
    NoContact,
    /// The ship was destroyed.
    Crashed,
    /// The ship came to rest on a platform; the landing scores.
    Landed(Platform),
}

/// How a contact resolves: no contact leaves the attempt running; touching
/// anything outside the safe-velocity window, or anything that is not a
/// platform, is a crash; touching a platform within the window is a landing
/// on it.
pub open spec fn contact_outcome_spec(
    colliding: bool,
    ready_to_land: bool,
    platform: Option<Platform>,
) -> ContactOutcome {
    if !colliding {
        ContactOutcome::NoContact
    } else if !ready_to_land {
        ContactOutcome::Crashed
    } else if platform is Some {
        ContactOutcome::Landed(platform->0)
    } else {
        ContactOutcome::Crashed
    }
}

/// Classifies the ship's contact state: whether it is touching anything,
/// whether its velocity is within the safe window, and the platform the
/// first touched body belongs to, if any.
pub fn classify_player_contact(
    colliding: bool,
    ready_to_land: bool,
    platform: Option<Platform>,
) -> (r: ContactOutcome)
    ensures
        r == contact_outcome_spec(colliding, ready_to_land, platform),
{
    if !colliding {
        ContactOutcome::NoContact
    } else if !ready_to_land {
        ContactOutcome::Crashed
    } else {
        match platform {
            Some(p) => ContactOutcome::Landed(p),
            None => ContactOutcome::Crashed,
        }
    }
}

/// The round state a contact outcome moves to, if any: a crash enters the
/// crashed state, a landing the landed state.
pub fn contact_next_state(outcome: ContactOutcome) -> (r: Option<GameState>)
    ensures
        outcome is NoContact ==> r is None,
        outcome is Crashed ==> r == Some(GameState::Crashed),
        outcome is Landed ==> r == Some(GameState::Landed),
{
    match outcome {
        ContactOutcome::NoContact => None,
        ContactOutcome::Crashed => Some(GameState::Crashed),
        ContactOutcome::Landed(_) => Some(GameState::Landed),
    }
}

} // verus!
