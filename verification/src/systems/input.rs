//! Keys that change the mode of the game.

use vstd::prelude::*;
use crate::resources::input::MouseLook;
use crate::states::GameState;

verus! {

/// The mode that the pause key leads to from `state`, if it leads anywhere:
/// it pauses a running game and resumes a paused one.
pub open spec fn pause_toggled(state: GameState) -> Option<GameState> {
    match state {
        GameState::Playing => Some(GameState::Paused),
        GameState::Paused => Some(GameState::Playing),
        _ => None,
    }
}

/// Handles the pause key and the key that locks the pointer. Returns the
/// mode to change to, if the mode changes.
pub fn handle_input(
    current: GameState,
    pause_pressed: bool,
    lock_pressed: bool,
    mouse_look: &mut MouseLook,
) -> (next: Option<GameState>)
    ensures
        pause_pressed ==> next == pause_toggled(current),
        !pause_pressed ==> next is None,
        final(mouse_look).locked == (old(mouse_look).locked != lock_pressed),
        final(mouse_look).sensitivity == old(mouse_look).sensitivity,
{
    if lock_pressed {
        mouse_look.locked = !mouse_look.locked;
    }
    if !pause_pressed {
        return None;
    }
    match current {
        GameState::Playing => Some(GameState::Paused),
        GameState::Paused => Some(GameState::Playing),
        _ => None,
    }
}

} // verus!
