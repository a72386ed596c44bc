//! The way into the death screen and out of it.

use vstd::prelude::*;
use crate::components::stats::Health;
use crate::states::GameState;

verus! {

/// The mode to change to, if the mode changes: a game whose player has died
/// turns to the death screen, from which the respawn key leads back.
pub open spec fn death_transition(
    current: GameState,
    player_health: Option<Health>,
    respawn_pressed: bool,
) -> Option<GameState> {
    if current == GameState::Death {
        if respawn_pressed {
            Some(GameState::Playing)
        } else {
            None
        }
    } else if player_health matches Some(health) && health.current == 0 {
        Some(GameState::Death)
    } else {
        None
    }
}

/// Decides whether the game enters or leaves the death screen. With no
/// player there is nobody to have died.
pub fn handle_death_ui(
    current: GameState,
    player_health: Option<Health>,
    respawn_pressed: bool,
) -> (next: Option<GameState>)
    ensures
        next == death_transition(current, player_health, respawn_pressed),
{
    if current == GameState::Death {
        if respawn_pressed {
            Some(GameState::Playing)
        } else {
            None
        }
    } else {
        match player_health {
            Some(health) => {
                if health.is_dead() {
                    Some(GameState::Death)
                } else {
                    None
                }
            },
            None => None,
        }
    }
}

} // verus!
