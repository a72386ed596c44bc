//! The modes of the game.

use vstd::prelude::*;

verus! {

/// The mode that the game is in.
#[derive(Clone, Copy, Debug, PartialEq, Eq, Hash, Structural)]
pub enum GameState {
    MainMenu,
    Playing,
    Paused,
    Death,
    Loading,
}

impl Default for GameState {
    fn default() -> (s: GameState)
        ensures
            s == GameState::Playing,
    {
        GameState::Playing
    }
}

} // verus!
