//! Application and round lifecycle states, and the transitions between them
//! that plain decisions drive (asset readiness, the between-rounds reset, the
//! continue keys).

use vstd::prelude::*;

use crate::spaceship::{
    INITIAL_SPACESHIP_POSITION_X, INITIAL_SPACESHIP_POSITION_Y,
};

verus! {

/// Top-level application state.
#[derive(Clone, Copy, Debug, PartialEq, Eq, Structural)]
pub enum AppState {
    Init,
    Setup,
    Menu,
    Game,
    Instructions,
    Credits,
}

/// Round lifecycle while the application is in `AppState::Game`.
#[derive(Clone, Copy, Debug, PartialEq, Eq, Structural)]
pub enum GameState {
    Setup,
    Landing,
    Paused,
    Landed,
    Crashed,
    GameOver,
}

/// Loading state of the scene images.
#[derive(Clone, Copy, Debug, PartialEq, Eq, Structural)]
pub enum SceneAssetState {
    Loading,
    Loaded,
}

/// Once the background, the landscape and the lander image are all loaded,
/// asset loading is finished and the application leaves `AppState::Init`.
pub fn check_assets(background_loaded: bool, landscape_loaded: bool, lander_loaded: bool) -> (r:
    Option<(SceneAssetState, AppState)>)
    ensures
        background_loaded && landscape_loaded && lander_loaded ==> r == Some(
            (SceneAssetState::Loaded, AppState::Setup),
        ),
        !(background_loaded && landscape_loaded && lander_loaded) ==> r is None,
{
    if background_loaded && landscape_loaded && lander_loaded {
        Some((SceneAssetState::Loaded, AppState::Setup))
    } else {
        None
    }
}

/// Horizontal velocity a round starts with, in thousandths of a unit per
/// second: the ship drifts rightward into the playfield.
pub const ROUND_START_VELOCITY_X: i64 = 120_000;

/// Everything the between-rounds reset decides: where the ship is put back,
/// the velocity it is given, and the round state the game moves to.
#[derive(Clone, Copy, Debug, PartialEq, Eq, Structural)]
pub struct RoundStart {
    /// Ship position after the reset, in thousandths.
    pub x: i64,
    /// Ship position after the reset, in thousandths.
    pub y: i64,
    /// Ship velocity after the reset, in thousandths per second.
    pub vx: i64,
    /// Ship velocity after the reset, in thousandths per second.
    pub vy: i64,
    /// Round state the game moves to.
    pub next: GameState,
}

/// The between-rounds reset: the ship returns to its spawn position with the
/// starting rightward drift, and the round enters the landing state.
pub fn round_start() -> (r: RoundStart)
    ensures
        r == (RoundStart {
            x: INITIAL_SPACESHIP_POSITION_X as i64,
            y: INITIAL_SPACESHIP_POSITION_Y as i64,
            vx: ROUND_START_VELOCITY_X as i64,
            vy: 0i64,
            next: GameState::Landing,
        }),
{
    RoundStart {
        x: INITIAL_SPACESHIP_POSITION_X,
        y: INITIAL_SPACESHIP_POSITION_Y,
        vx: ROUND_START_VELOCITY_X,
        vy: 0,
        next: GameState::Landing,
    }
}

/// After a scored landing, either control key or the enter key clears the
/// score panel and sets the next round up; any other key does nothing.
pub fn control_key_game_reset(control_left: bool, control_right: bool, enter: bool) -> (r: Option<
    GameState,
>)
    ensures
        control_left || control_right || enter ==> r == Some(GameState::Setup),
        !(control_left || control_right || enter) ==> r is None,
{
    if control_left || control_right || enter {
        Some(GameState::Setup)
    } else {
        None
    }
}

} // verus!
