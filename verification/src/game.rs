//! Score, fuel and gravity progression across landing attempts.
//!
//! A safe touchdown is worth a number of points that grows the softer the
//! touchdown, multiplied by the platform's factor. A landing refills fuel by
//! a fifth of the awarded score, never past the tank, and makes gravity a
//! tenth of a unit stronger. A crash costs a flat amount of fuel and ends the
//! game once the tank runs dry.

use vstd::prelude::*;

use crate::collider::Platform;
use crate::fixed::{div_trunc, div_trunc_exec, lemma_div_trunc_bounds, lemma_div_trunc_ordered};
use crate::movement::ready_to_land_spec;
use crate::state::GameState;

verus! {

/// Capacity of the fuel tank, in thousandths of a fuel unit.
pub const FUEL_QUANTITY: i64 = 1_000_000;

/// Lowest fuel level the scoring rules accept, in thousandths; the game
/// never drains the tank further than a single step's overshoot and a crash
/// penalty below empty.
pub const MIN_FUEL: i64 = -1_000_000_000;

/// Gravity scale at the first landing attempt, in thousandths.
pub const INITIAL_GRAVITY: i64 = 1000;

/// How much stronger gravity becomes with each successful landing, in
/// thousandths.
pub const GRAVITY_STEP: i64 = 100;

/// Fuel a crash costs, in thousandths.
pub const CRASH_FUEL_PENALTY: i64 = 100_000;

/// Numerator of the touchdown-velocity weight in the points formula; the
/// weight is this many hundred-thousandths per thousandth of velocity.
pub const POINTS_VELOCITY_WEIGHT: i64 = 1457;

/// Points awarded for a touchdown at zero vertical velocity.
pub const POINTS_BASE: i64 = 720;

/// Running totals of the current game.
#[derive(Clone, Copy, Debug, PartialEq, Eq, Structural)]
pub struct Scores {
    /// Score of the current game.
    pub score: i32,
    /// Best score displayed so far, never below the persisted one.
    pub hi_score: i32,
    /// Fuel left, in thousandths of a fuel unit.
    pub fuel_quantity: i64,
    /// Current gravity scale, in thousandths.
    pub gravity: i64,
}

/// Persisted best results across games.
#[derive(Clone, Copy, Debug, PartialEq, Eq, Structural)]
pub struct BestScoreSoFar {
    /// Highest score ever reached.
    pub hi_score: i32,
    /// Strongest gravity ever reached, in thousandths.
    pub gravity: i64,
}

impl Scores {
    /// The states the game rules keep the totals in: non-negative scores, a
    /// tank never above capacity nor absurdly far below empty, and gravity at
    /// or above its initial strength.
    pub open spec fn wf(self) -> bool {
        &&& 0 <= self.score
        &&& 0 <= self.hi_score
        &&& MIN_FUEL <= self.fuel_quantity <= FUEL_QUANTITY
        &&& INITIAL_GRAVITY <= self.gravity
    }

    /// The totals a game starts with: no score, a full tank, initial gravity.
    pub fn new() -> (r: Scores)
        ensures
            r == (Scores {
                score: 0i32,
                hi_score: 0i32,
                fuel_quantity: FUEL_QUANTITY as i64,
                gravity: INITIAL_GRAVITY as i64,
            }),
            r.wf(),
    {
        Scores { score: 0, hi_score: 0, fuel_quantity: FUEL_QUANTITY, gravity: INITIAL_GRAVITY }
    }

    /// Room left in the tank: the capacity minus the fuel on board.
    pub fn get_available_fuel_quantity(&self) -> (r: i64)
        requires
            self.wf(),
        ensures
            r == FUEL_QUANTITY - self.fuel_quantity,
    {
        FUEL_QUANTITY - self.fuel_quantity
    }
}

impl BestScoreSoFar {
    /// The states the rules keep the persisted bests in.
    pub open spec fn wf(self) -> bool {
        &&& 0 <= self.hi_score
        &&& INITIAL_GRAVITY <= self.gravity
    }
}

impl Default for BestScoreSoFar {
    /// The persisted bests before any game was played.
    fn default() -> (r: BestScoreSoFar)
        ensures
            r == (BestScoreSoFar { hi_score: 0i32, gravity: INITIAL_GRAVITY as i64 }),
            r.wf(),
    {
        BestScoreSoFar { hi_score: 0, gravity: INITIAL_GRAVITY }
    }
}

/// Points a touchdown at vertical velocity `vy` (thousandths of a unit per
/// second, negative while descending) is worth: a base amount plus the
/// velocity weighted and truncated toward zero, so a softer touchdown earns
/// more.
pub open spec fn points_spec(vy: int) -> int {
    div_trunc(POINTS_VELOCITY_WEIGHT * vy, 100_000) + POINTS_BASE
}

/// Computes the points for a touchdown at vertical velocity `vy`. Within the
/// ready-to-land window the award is always positive.
pub fn points_from_velocity(vy: i64) -> (r: i32)
    requires
        -100_000_000 <= vy <= 100_000_000,
    ensures
        r == points_spec(vy as int),
        ready_to_land_spec(vy as int) ==> 211 <= r <= 734,
{
    proof {
        lemma_div_trunc_bounds(
            POINTS_VELOCITY_WEIGHT as int * vy as int,
            100_000,
            145_700_000_000,
        );
        if ready_to_land_spec(vy as int) {
            lemma_div_trunc_ordered(1457int * -34_999, 1457 * vy as int, 100_000);
            lemma_div_trunc_ordered(1457 * vy as int, 1457int * 999, 100_000);
        }
    }
    let scaled = div_trunc_exec(POINTS_VELOCITY_WEIGHT * vy, 100_000);
    (scaled + POINTS_BASE) as i32
}

/// Fuel added by a landing worth `new_score` points when the tank held
/// `fuel` thousandths: a fifth of the score, in fuel units, but never more
/// than a fifth of the room left in the tank.
pub open spec fn refill_spec(fuel: int, new_score: int) -> int {
    let available_units = (FUEL_QUANTITY - fuel) / 1000;
    let capped = if new_score > available_units {
        available_units
    } else {
        new_score
    };
    capped * 200
}

/// Applies a successful landing on `platform` at vertical velocity `vy` to
/// the running totals and the persisted bests:
/// the score grows by the platform's factor times the touchdown points, the
/// displayed best becomes the larger of the persisted best and the new score,
/// the tank is refilled by a fifth of the award but never past capacity,
/// gravity becomes one step stronger, and the persisted bests absorb the new
/// score and gravity when they exceed them.
pub fn apply_landing(scores: &mut Scores, best: &mut BestScoreSoFar, platform: Platform, vy: i64)
    requires
        old(scores).wf(),
        old(best).wf(),
        platform.wf(),
        ready_to_land_spec(vy as int),
        old(scores).score + platform.factor * points_spec(vy as int) <= i32::MAX,
        old(scores).gravity + GRAVITY_STEP <= i64::MAX,
    ensures
        ({
            let points = points_spec(vy as int);
            let new_score = platform.factor * points;
            let total = old(scores).score + new_score;
            &&& final(scores).score == total
            &&& final(scores).hi_score == (if old(best).hi_score < total {
                total
            } else {
                old(best).hi_score as int
            })
            &&& final(scores).fuel_quantity == old(scores).fuel_quantity + refill_spec(
                old(scores).fuel_quantity as int,
                new_score,
            )
            &&& final(scores).gravity == old(scores).gravity + GRAVITY_STEP
            &&& final(best).hi_score == (if total > old(best).hi_score {
                total
            } else {
                old(best).hi_score as int
            })
            &&& final(best).gravity == (if old(scores).gravity + GRAVITY_STEP > old(best).gravity {
                old(scores).gravity + GRAVITY_STEP
            } else {
                old(best).gravity as int
            })
            &&& final(scores).fuel_quantity <= FUEL_QUANTITY
            &&& final(scores).wf()
            &&& final(best).wf()
        }),
{
    let points = points_from_velocity(vy);
    let mut new_score: i32 = platform.factor * points;
    scores.score = scores.score + new_score;
    if best.hi_score < scores.score {
        scores.hi_score = scores.score;
    } else {
        scores.hi_score = best.hi_score;
    }
    let available = scores.get_available_fuel_quantity();
    let available_units = div_trunc_exec(available, 1000);
    proof {
        lemma_div_trunc_bounds(available as int, 1000, 1_001_000_000);
        vstd::arithmetic::div_mod::lemma_div_pos_is_pos(available as int, 1000);
        vstd::arithmetic::div_mod::lemma_fundamental_div_mod(available as int, 1000);
    }
    if new_score as i64 > available_units {
        new_score = available_units as i32;
    }
    scores.fuel_quantity = scores.fuel_quantity + (new_score as i64) * 200;
    scores.gravity = scores.gravity + GRAVITY_STEP;
    if scores.score > best.hi_score {
        best.hi_score = scores.score;
    }
    if scores.gravity > best.gravity {
        best.gravity = scores.gravity;
    }
}

/// Applies the cost of a crash once its explosion has played out: the crash
/// penalty is taken from the tank; a dry tank then ends the game and clears
/// the score, otherwise the round is set up again.
pub fn crash_fuel_penalty(scores: &mut Scores) -> (next: GameState)
    requires
        old(scores).wf(),
        old(scores).fuel_quantity - CRASH_FUEL_PENALTY >= MIN_FUEL,
    ensures
        final(scores).fuel_quantity == old(scores).fuel_quantity - CRASH_FUEL_PENALTY,
        final(scores).hi_score == old(scores).hi_score,
        final(scores).gravity == old(scores).gravity,
        old(scores).fuel_quantity - CRASH_FUEL_PENALTY <= 0 ==> final(scores).score == 0 && next
            == GameState::GameOver,
        old(scores).fuel_quantity - CRASH_FUEL_PENALTY > 0 ==> final(scores).score == old(
            scores,
        ).score && next == GameState::Setup,
        final(scores).wf(),
{
    scores.fuel_quantity = scores.fuel_quantity - CRASH_FUEL_PENALTY;
    if scores.fuel_quantity <= 0 {
        scores.score = 0;
        GameState::GameOver
    } else {
        GameState::Setup
    }
}

/// Refills the tank to capacity when the game-over menu comes up, leaving
/// every other total as it is.
pub fn game_over_refuel(scores: &mut Scores)
    requires
        old(scores).wf(),
    ensures
        *final(scores) == (Scores { fuel_quantity: FUEL_QUANTITY as i64, ..*old(scores) }),
        final(scores).wf(),
{
    scores.fuel_quantity = FUEL_QUANTITY;
}

} // verus!
