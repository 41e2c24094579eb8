//! Platform proximity: the camera zooms onto a landing zone, and its marker
//! circle changes color, while the ship is within a fixed radius of the
//! zone's center.

use vstd::prelude::*;

use crate::collider::{
    PLATFORM_10X_CENTER_X, PLATFORM_10X_CENTER_Y, PLATFORM_2X_CENTER_X, PLATFORM_2X_CENTER_Y,
    PLATFORM_5X_CENTER_X, PLATFORM_5X_CENTER_Y, PLATFORM_CENTER_Z,
};

verus! {

/// Distance under which the ship counts as close to a platform, in
/// thousandths of a world unit.
pub const PROXIMITY_RADIUS: i64 = 170_000;

/// Largest coordinate magnitude the proximity test accepts, in thousandths.
pub const MAX_COORDINATE: i64 = 800_000_000;

/// Whether the point `p` lies strictly within `radius` of the point `c`:
/// the squared distance between them is under the squared radius.
pub open spec fn within_proximity_spec(
    px: int,
    py: int,
    pz: int,
    cx: int,
    cy: int,
    cz: int,
    radius: int,
) -> bool {
    let dx = px - cx;
    let dy = py - cy;
    let dz = pz - cz;
    dx * dx + dy * dy + dz * dz < radius * radius
}

/// Decides whether the point `(px, py, pz)` lies strictly within `radius` of
/// the point `(cx, cy, cz)`.
pub fn within_proximity(px: i64, py: i64, pz: i64, cx: i64, cy: i64, cz: i64, radius: i64) -> (r:
    bool)
    requires
        -MAX_COORDINATE <= px <= MAX_COORDINATE,
        -MAX_COORDINATE <= py <= MAX_COORDINATE,
        -MAX_COORDINATE <= pz <= MAX_COORDINATE,
        -MAX_COORDINATE <= cx <= MAX_COORDINATE,
        -MAX_COORDINATE <= cy <= MAX_COORDINATE,
        -MAX_COORDINATE <= cz <= MAX_COORDINATE,
        0 <= radius <= MAX_COORDINATE,
    ensures
        r == within_proximity_spec(
            px as int,
            py as int,
            pz as int,
            cx as int,
            cy as int,
            cz as int,
            radius as int,
        ),
{
    let dx = px - cx;
    let dy = py - cy;
    let dz = pz - cz;
    proof {
        lemma_square_bounded(dx as int, 1_600_000_000);
        lemma_square_bounded(dy as int, 1_600_000_000);
        lemma_square_bounded(dz as int, 1_600_000_000);
        lemma_square_bounded(radius as int, 1_600_000_000);
    }
    dx * dx + dy * dy + dz * dz < radius * radius
}

/// The square of a value of bounded magnitude is non-negative and bounded.
proof fn lemma_square_bounded(v: int, m: int)
    requires
        0 <= m,
        -m <= v <= m,
    ensures
        0 <= v * v <= m * m,
{
    assert(0 <= v * v <= m * m) by (nonlinear_arith)
        requires
            0 <= m,
            -m <= v <= m,
    ;
}

/// Whether the ship at `(px, py, pz)` is close to each of the three
/// platforms, in the order of their factors.
pub fn platform_proximity(px: i64, py: i64, pz: i64) -> (r: (bool, bool, bool))
    requires
        -MAX_COORDINATE <= px <= MAX_COORDINATE,
        -MAX_COORDINATE <= py <= MAX_COORDINATE,
        -MAX_COORDINATE <= pz <= MAX_COORDINATE,
    ensures
        r.0 == within_proximity_spec(
            px as int,
            py as int,
            pz as int,
            PLATFORM_2X_CENTER_X as int,
            PLATFORM_2X_CENTER_Y as int,
            PLATFORM_CENTER_Z as int,
            PROXIMITY_RADIUS as int,
        ),
        r.1 == within_proximity_spec(
            px as int,
            py as int,
            pz as int,
            PLATFORM_5X_CENTER_X as int,
            PLATFORM_5X_CENTER_Y as int,
            PLATFORM_CENTER_Z as int,
            PROXIMITY_RADIUS as int,
        ),
        r.2 == within_proximity_spec(
            px as int,
            py as int,
            pz as int,
            PLATFORM_10X_CENTER_X as int,
            PLATFORM_10X_CENTER_Y as int,
            PLATFORM_CENTER_Z as int,
            PROXIMITY_RADIUS as int,
        ),
{
    let near_2x = within_proximity(
        px,
        py,
        pz,
        PLATFORM_2X_CENTER_X,
        PLATFORM_2X_CENTER_Y,
        PLATFORM_CENTER_Z,
        PROXIMITY_RADIUS,
    );
    let near_5x = within_proximity(
        px,
        py,
        pz,
        PLATFORM_5X_CENTER_X,
        PLATFORM_5X_CENTER_Y,
        PLATFORM_CENTER_Z,
        PROXIMITY_RADIUS,
    );
    let near_10x = within_proximity(
        px,
        py,
        pz,
        PLATFORM_10X_CENTER_X,
        PLATFORM_10X_CENTER_Y,
        PLATFORM_CENTER_Z,
        PROXIMITY_RADIUS,
    );
    (near_2x, near_5x, near_10x)
}

} // verus!
