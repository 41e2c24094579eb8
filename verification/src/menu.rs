//! Menu navigation rules: what an accepted menu entry or the pause key does
//! to the application and round states.

use vstd::prelude::*;

use crate::state::{AppState, GameState};

verus! {

/// Input actions available while navigating menus.
#[derive(Clone, Copy, Debug, PartialEq, Eq, Structural)]
pub enum MenuAction {
    MenuUp,
    MenuDown,
    Accept,
    PauseUnpause,
}

/// Effect of one pass over the out-of-game menus.
#[derive(Clone, Copy, Debug, PartialEq, Eq)]
pub struct MainMenuOutcome {
    /// Application state to switch to, if any.
    pub next_app: Option<AppState>,
    /// Whether the application should exit.
    pub quit: bool,
}

/// Effect of one pass over the in-game menus.
#[derive(Clone, Copy, Debug, PartialEq, Eq)]
pub struct GameMenuOutcome {
    /// Round state to switch to, if any.
    pub next_game: Option<GameState>,
    /// Application state to switch to, if any.
    pub next_app: Option<AppState>,
    /// Whether the application should exit.
    pub quit: bool,
}

/// What accepting entry `selected_id` of the out-of-game menus does.
///
/// In the main menu the first entry starts a game, the second opens the
/// credits and any later entry exits; in the credits the first entry returns
/// to the main menu and any later entry exits. Without an accept press, or in
/// any other application state, nothing happens.
pub open spec fn main_menu_outcome_spec(app: AppState, accept: bool, selected_id: usize) -> (
    Option<AppState>,
    bool,
) {
    if !accept {
        (None::<AppState>, false)
    } else if app == AppState::Menu {
        if selected_id == 0 {
            (Some(AppState::Game), false)
        } else if selected_id == 1 {
            (Some(AppState::Credits), false)
        } else {
            (None::<AppState>, true)
        }
    } else if app == AppState::Credits {
        if selected_id == 0 {
            (Some(AppState::Menu), false)
        } else {
            (None::<AppState>, true)
        }
    } else {
        (None::<AppState>, false)
    }
}

/// Decides the effect of the main and credits menus for the entry currently
/// selected, given whether the accept action was just pressed.
pub fn main_menu_input(app: AppState, accept: bool, selected_id: usize) -> (r: MainMenuOutcome)
    ensures
        (r.next_app, r.quit) == main_menu_outcome_spec(app, accept, selected_id),
{
    if !accept {
        MainMenuOutcome { next_app: None, quit: false }
    } else if app == AppState::Menu {
        if selected_id == 0 {
            MainMenuOutcome { next_app: Some(AppState::Game), quit: false }
        } else if selected_id == 1 {
            MainMenuOutcome { next_app: Some(AppState::Credits), quit: false }
        } else {
            MainMenuOutcome { next_app: None, quit: true }
        }
    } else if app == AppState::Credits {
        if selected_id == 0 {
            MainMenuOutcome { next_app: Some(AppState::Menu), quit: false }
        } else {
            MainMenuOutcome { next_app: None, quit: true }
        }
    } else {
        MainMenuOutcome { next_app: None, quit: false }
    }
}

/// Round state the pause key moves to, if any: it suspends a landing attempt
/// and resumes a paused one.
pub open spec fn pause_toggle_spec(game: GameState, pause: bool) -> Option<GameState> {
    if pause && game == GameState::Landing {
        Some(GameState::Paused)
    } else if pause && game == GameState::Paused {
        Some(GameState::Landing)
    } else {
        None::<GameState>
    }
}

/// What accepting entry `selected_id` of the in-game menus does.
///
/// In the pause menu the entries resume, return to the main menu, or exit; in
/// the game-over menu they return to the main menu or exit.
pub open spec fn game_menu_accept_spec(game: GameState, selected_id: usize) -> (
    Option<GameState>,
    Option<AppState>,
    bool,
) {
    if game == GameState::Paused {
        if selected_id == 0 {
            (Some(GameState::Landing), None::<AppState>, false)
        } else if selected_id == 1 {
            (None::<GameState>, Some(AppState::Menu), false)
        } else {
            (None::<GameState>, None::<AppState>, true)
        }
    } else if game == GameState::GameOver {
        if selected_id == 0 {
            (None::<GameState>, Some(AppState::Menu), false)
        } else {
            (None::<GameState>, None::<AppState>, true)
        }
    } else {
        (None::<GameState>, None::<AppState>, false)
    }
}

/// Combined effect of one pass over the in-game menus: the pause toggle is
/// applied first, then an accepted menu entry; a round-state switch decided
/// by the accepted entry supersedes the toggle's.
pub open spec fn game_menu_outcome_spec(
    game: GameState,
    pause: bool,
    menu_present: bool,
    accept: bool,
    selected_id: usize,
) -> (Option<GameState>, Option<AppState>, bool) {
    let toggled = pause_toggle_spec(game, pause);
    if menu_present && accept {
        let (ng, na, quit) = game_menu_accept_spec(game, selected_id);
        (if ng is Some { ng } else { toggled }, na, quit)
    } else {
        (toggled, None::<AppState>, false)
    }
}

/// Decides the effect of the pause key and of the pause and game-over menus,
/// given the current round state, whether a menu is on screen, and which of
/// its entries is selected.
pub fn game_menu_input(
    game: GameState,
    pause: bool,
    menu_present: bool,
    accept: bool,
    selected_id: usize,
) -> (r: GameMenuOutcome)
    ensures
        (r.next_game, r.next_app, r.quit) == game_menu_outcome_spec(
            game,
            pause,
            menu_present,
            accept,
            selected_id,
        ),
{
    let mut next_game: Option<GameState> = None;
    let mut next_app: Option<AppState> = None;
    let mut quit = false;
    if pause {
        if game == GameState::Landing {
            next_game = Some(GameState::Paused);
        }
        if game == GameState::Paused {
            next_game = Some(GameState::Landing);
        }
    }
    if menu_present && accept {
        if game == GameState::Paused {
            if selected_id == 0 {
                next_game = Some(GameState::Landing);
            } else if selected_id == 1 {
                next_app = Some(AppState::Menu);
            } else {
                quit = true;
            }
        }
        if game == GameState::GameOver {
            if selected_id == 0 {
                next_app = Some(AppState::Menu);
            } else {
                quit = true;
            }
        }
    }
    GameMenuOutcome { next_game, next_app, quit }
}

} // verus!
