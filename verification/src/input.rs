//! What players ask of the menus, once the input devices are read.

use vstd::prelude::*;

verus! {

/// What a player asks of a menu.
#[derive(Debug, PartialEq, Eq, Clone, Copy, Structural)]
pub enum MenuAction {
    JoinKeyboard,
    JoinGamepad,
    NavigateLeftKeyboard,
    NavigateRightKeyboard,
    NavigateLeftGamepad,
    NavigateRightGamepad,
    PauseGame,
    ExitPauseMenu,
}

/// Tells whether `action` is one of `actions`.
pub fn contains_action(actions: &Vec<MenuAction>, action: MenuAction) -> (found: bool)
    ensures
        found == actions@.contains(action),
{
    let mut i: usize = 0;
    while i < actions.len()
        invariant
            i <= actions.len(),
            forall|j: int| 0 <= j < i ==> actions@[j] != action,
        decreases actions.len() - i,
    {
        if actions[i] == action {
            return true;
        }
        i += 1;
    }
    false
}

} // verus!
