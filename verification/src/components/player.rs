//! The player's movement state and the animation state of an actor.

use vstd::prelude::*;

verus! {

/// The movement state of the player: speed in thousandths per second, the
/// roll timer a countdown in milliseconds.
#[derive(Clone, Copy, Debug, PartialEq, Eq, Structural)]
pub struct Player {
    pub speed: u32,
    pub is_rolling: bool,
    pub roll_timer: u32,
    pub roll_duration: u32,
}

/// The animation that an actor shows.
#[derive(Clone, Copy, Debug, PartialEq, Eq, Structural)]
pub enum AnimationState {
    Idle,
    Walk,
    Run,
    Roll,
    Jump,
    Slash,
    Parry,
    Death,
}

/// The animation of one actor and its way from one state to the next.
/// `transition_timer` is a countdown in milliseconds: the rest of the
/// current state's fixed duration.
#[derive(Clone, Copy, Debug, PartialEq, Eq, Structural)]
pub struct AnimationController {
    pub current_state: AnimationState,
    pub previous_state: AnimationState,
    pub transition_timer: u32,
    pub can_interrupt: bool,
    pub is_transitioning: bool,
}

impl Default for Player {
    fn default() -> (p: Player)
        ensures
            p == (Player { speed: 5_000, is_rolling: false, roll_timer: 0, roll_duration: 500 }),
    {
        Player { speed: 5_000, is_rolling: false, roll_timer: 0, roll_duration: 500 }
    }
}

impl Default for AnimationState {
    fn default() -> (s: AnimationState)
        ensures
            s == AnimationState::Idle,
    {
        AnimationState::Idle
    }
}

impl Default for AnimationController {
    fn default() -> (c: AnimationController)
        ensures
            c == (AnimationController {
                current_state: AnimationState::Idle,
                previous_state: AnimationState::Idle,
                transition_timer: 100,
                can_interrupt: true,
                is_transitioning: false,
            }),
    {
        AnimationController {
            current_state: AnimationState::Idle,
            previous_state: AnimationState::Idle,
            transition_timer: 100,
            can_interrupt: true,
            is_transitioning: false,
        }
    }
}

} // verus!
