//! Pausing and resuming the game.

use crate::input::{contains_action, MenuAction};
use vstd::prelude::*;

verus! {

/// Whether the game is being played or is paused.
#[derive(Debug, PartialEq, Eq, Clone, Copy, Structural)]
pub enum GameStates {
    Playing,
    Paused,
}

/// A change between playing and pause: the state to enter, and whether the
/// physics engine runs in it. The change is announced with the sound of a
/// successful menu input.
#[derive(Debug, PartialEq, Eq, Clone, Copy, Structural)]
pub struct PauseMenuChange {
    pub next_state: GameStates,
    pub physics_active: bool,
}

/// The change that pauses the game and suspends the physics engine.
pub open spec fn pausing() -> PauseMenuChange {
    PauseMenuChange { next_state: GameStates::Paused, physics_active: false }
}

/// The change that lets the game go on and the physics engine resume.
pub open spec fn resuming() -> PauseMenuChange {
    PauseMenuChange { next_state: GameStates::Playing, physics_active: true }
}

/// The change that takes place, if any: `change`, if `action` is among the
/// actions released.
pub open spec fn change_on(
    released: Seq<MenuAction>,
    action: MenuAction,
    change: PauseMenuChange,
) -> Option<PauseMenuChange> {
    if released.contains(action) {
        Some(change)
    } else {
        None
    }
}

/// Opens the pause menu if the pause action was released in this frame: the game
/// pauses and the physics engine is suspended.
pub fn open_pause_menu_system(released_actions: &Vec<MenuAction>) -> (change: Option<
    PauseMenuChange,
>)
    ensures
        change == change_on(released_actions@, MenuAction::PauseGame, pausing()),
{
    if contains_action(released_actions, MenuAction::PauseGame) {
        Some(PauseMenuChange { next_state: GameStates::Paused, physics_active: false })
    } else {
        None
    }
}

/// Closes the pause menu if the action to leave it was released in this frame:
/// the game goes on and the physics engine resumes.
pub fn close_pause_menu_system(released_actions: &Vec<MenuAction>) -> (change: Option<
    PauseMenuChange,
>)
    ensures
        change == change_on(released_actions@, MenuAction::ExitPauseMenu, resuming()),
{
    if contains_action(released_actions, MenuAction::ExitPauseMenu) {
        Some(PauseMenuChange { next_state: GameStates::Playing, physics_active: true })
    } else {
        None
    }
}

} // verus!
