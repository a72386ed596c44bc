//! The player's rolls and sprints, and what they cost in stamina.

use vstd::prelude::*;
use crate::components::player::Player;
use crate::components::stats::{regenerated, spent, Stamina};
use crate::utils::timer::{counted_down, tick_down};

verus! {

/// The stamina that a roll costs.
pub const ROLL_COST: u32 = 20_000;

/// The stamina that a second of sprinting costs.
pub const SPRINT_COST_RATE: u32 = 10_000;

/// What the player asks for in this tick.
#[derive(Clone, Copy, Debug, PartialEq, Eq, Structural)]
pub struct MoveInput {
    /// A direction is held.
    pub moving: bool,
    /// The roll key went down in this tick.
    pub roll_pressed: bool,
    /// The sprint key is held down.
    pub sprint_held: bool,
}

/// How the player is to move in the horizontal plane.
#[derive(Clone, Copy, Debug, PartialEq, Eq, Structural)]
pub enum Locomotion {
    /// A roll is under way: the velocity stays as it is.
    Rolling,
    /// A roll starts, at the given speed along the direction of movement.
    StartRoll { speed: u64 },
    /// The player moves at the given speed along the held direction.
    Travel { speed: u64 },
    /// The player stands: the horizontal velocity is zero.
    Stand,
}

/// The stamina that sprinting through `dt` milliseconds costs.
pub open spec fn sprint_cost(dt: int) -> int {
    SPRINT_COST_RATE * dt / 1000
}

/// Whether a player with this much stamina, after regeneration, sprints
/// through a tick of `dt` milliseconds: there is stamina, and enough of it.
pub open spec fn can_sprint(stamina: Stamina, dt: int) -> bool {
    stamina.current > 0 && stamina.current >= sprint_cost(dt)
}

/// One tick of the player's movement. A roll under way runs on and nothing
/// else happens. Else stamina regenerates; then a roll starts if it is
/// asked for and paid for; else the player travels, one and a half times as
/// fast where it sprints and pays for that; else it stands.
pub open spec fn player_step(player: Player, stamina: Stamina, input: MoveInput, dt: int) -> (
    Player,
    Stamina,
    Locomotion,
) {
    if player.is_rolling {
        let left = counted_down(player.roll_timer as int, dt);
        (
            Player { roll_timer: left as u32, is_rolling: left > 0, ..player },
            stamina,
            Locomotion::Rolling,
        )
    } else {
        let rested = regenerated(stamina, dt);
        if input.roll_pressed && rested.current >= ROLL_COST {
            (
                Player { is_rolling: true, roll_timer: player.roll_duration, ..player },
                spent(rested, ROLL_COST as int),
                Locomotion::StartRoll { speed: (player.speed * 2) as u64 },
            )
        } else if input.moving {
            if input.sprint_held && can_sprint(rested, dt) {
                (
                    player,
                    spent(rested, sprint_cost(dt)),
                    Locomotion::Travel { speed: (player.speed * 3 / 2) as u64 },
                )
            } else {
                (player, rested, Locomotion::Travel { speed: player.speed as u64 })
            }
        } else {
            (player, rested, Locomotion::Stand)
        }
    }
}

/// Advances the player's movement by one tick of `dt` milliseconds and
/// returns how the player is to move.
pub fn player_movement(player: &mut Player, stamina: &mut Stamina, input: MoveInput, dt: u32) -> (motion:
    Locomotion)
    ensures
        (*final(player), *final(stamina), motion) == player_step(
            *old(player),
            *old(stamina),
            input,
            dt as int,
        ),
        !old(player).is_rolling ==> final(stamina).wf(),
        old(stamina).wf() ==> final(stamina).wf(),
{
    if player.is_rolling {
        player.roll_timer = tick_down(player.roll_timer, dt);
        if player.roll_timer == 0 {
            player.is_rolling = false;
        }
        return Locomotion::Rolling;
    }
    stamina.regen(dt);
    if input.roll_pressed && stamina.try_spend(ROLL_COST) {
        player.is_rolling = true;
        player.roll_timer = player.roll_duration;
        return Locomotion::StartRoll { speed: player.speed as u64 * 2 };
    }
    if !input.moving {
        return Locomotion::Stand;
    }
    let rate: u64 = SPRINT_COST_RATE as u64;
    assert(rate * dt == 10_000 * dt) by (nonlinear_arith)
        requires
            rate == 10_000,
    ;
    let cost: u64 = rate * (dt as u64) / 1000;
    if input.sprint_held && stamina.current > 0 && stamina.current as u64 >= cost {
        stamina.try_spend(cost as u32);
        Locomotion::Travel { speed: player.speed as u64 * 3 / 2 }
    } else {
        Locomotion::Travel { speed: player.speed as u64 }
    }
}

} // verus!
