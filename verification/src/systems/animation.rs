//! Which animation an actor shows: chosen anew in every tick, in a fixed
//! order of priority, from what the actor is and does.

use vstd::prelude::*;
use crate::components::combat::AttackState;
use crate::components::player::{AnimationController, AnimationState, Player};
use crate::components::stats::{Health, Stamina};
use crate::utils::math::{planar_len_sq, planar_length_squared, Vec3};
use crate::utils::timer::{counted_down, tick_down};

verus! {

/// Duration of a roll, in milliseconds.
pub const ROLL_DURATION: u32 = 700;

/// Duration of a slash, in milliseconds.
pub const SLASH_DURATION: u32 = 800;

/// Duration of a parry, in milliseconds.
pub const PARRY_DURATION: u32 = 500;

/// Time after the start of a jump in which the jump is not started again,
/// in milliseconds.
pub const JUMP_DURATION: u32 = 1_000;

/// Duration of the death animation, in milliseconds.
pub const DEATH_DURATION: u32 = 2_000;

/// The stamina that an actor must have to start a parry.
pub const PARRY_STAMINA: u32 = 10_000;

/// The upward speed above which an actor is jumping.
pub const JUMP_SPEED: i32 = 1_000;

/// The horizontal speed above which an actor is walking.
pub const WALK_SPEED: u32 = 100;

/// The horizontal speed above which an actor that sprints is running.
pub const RUN_SPEED: u32 = 3_000;

/// The keys that bear on the animation, as they are in this tick.
#[derive(Clone, Copy, Debug, PartialEq, Eq, Structural)]
pub struct AnimationKeys {
    /// The block key is held down.
    pub block_held: bool,
    /// The secondary action button went down in this tick.
    pub secondary_pressed: bool,
    /// The sprint key is held down.
    pub sprint_held: bool,
}

/// The fixed duration of a state, in milliseconds; zero for the states of
/// moving on the ground, which have none.
pub open spec fn nominal_duration(state: AnimationState) -> u32 {
    match state {
        AnimationState::Roll => ROLL_DURATION,
        AnimationState::Slash => SLASH_DURATION,
        AnimationState::Parry => PARRY_DURATION,
        AnimationState::Jump => JUMP_DURATION,
        AnimationState::Death => DEATH_DURATION,
        AnimationState::Idle | AnimationState::Walk | AnimationState::Run => 0,
    }
}

/// Whether a state gives way to another before its duration is over.
pub open spec fn is_interruptible(state: AnimationState) -> bool {
    match state {
        AnimationState::Roll | AnimationState::Slash | AnimationState::Parry | AnimationState::Death => false,
        AnimationState::Jump | AnimationState::Idle | AnimationState::Walk | AnimationState::Run => true,
    }
}

/// The state that an actor with health left moves in on the ground.
pub open spec fn ground_state(velocity: Vec3, keys: AnimationKeys) -> AnimationState {
    if planar_len_sq(velocity) > WALK_SPEED * WALK_SPEED {
        if keys.sprint_held && planar_len_sq(velocity) > RUN_SPEED * RUN_SPEED {
            AnimationState::Run
        } else {
            AnimationState::Walk
        }
    } else {
        AnimationState::Idle
    }
}

/// The state that the actor should be in, by priority: death before
/// everything, then roll, parry, slash and jump, then movement on the ground.
pub open spec fn desired_state(
    velocity: Vec3,
    player: Player,
    health: Health,
    stamina: Stamina,
    attack_state: AttackState,
    keys: AnimationKeys,
) -> AnimationState {
    if health.current == 0 {
        AnimationState::Death
    } else if player.is_rolling {
        AnimationState::Roll
    } else if keys.block_held && keys.secondary_pressed && stamina.current >= PARRY_STAMINA {
        AnimationState::Parry
    } else if attack_state.is_attacking {
        AnimationState::Slash
    } else if velocity.y > JUMP_SPEED {
        AnimationState::Jump
    } else {
        ground_state(velocity, keys)
    }
}

/// The controller after a transition to `new_state`. With a duration the
/// transition takes that long and can be interrupted only as
/// `interruptible` says; without one it is over at once.
pub open spec fn transitioned(
    controller: AnimationController,
    new_state: AnimationState,
    duration: u32,
    interruptible: bool,
) -> AnimationController {
    AnimationController {
        current_state: new_state,
        previous_state: controller.current_state,
        transition_timer: duration,
        can_interrupt: duration == 0 || interruptible,
        is_transitioning: duration > 0,
    }
}

/// The controller after `dt` milliseconds: the timer runs down, and once it
/// has run out the transition is over and the state can be interrupted.
pub open spec fn controller_ticked(controller: AnimationController, dt: int) -> AnimationController {
    let left = counted_down(controller.transition_timer as int, dt);
    if left == 0 {
        AnimationController {
            transition_timer: 0,
            can_interrupt: true,
            is_transitioning: false,
            ..controller
        }
    } else {
        AnimationController { transition_timer: left as u32, ..controller }
    }
}

/// The controller after a change to `wanted`, if that is not its state yet.
pub open spec fn turned_to(controller: AnimationController, wanted: AnimationState) -> AnimationController {
    if controller.current_state == wanted {
        controller
    } else {
        transitioned(controller, wanted, nominal_duration(wanted), is_interruptible(wanted))
    }
}

/// One tick of the animation of an actor. The timer runs for `dt`
/// milliseconds. A dead actor turns to death whatever it is doing. Else a
/// state that cannot be interrupted stays until its timer has run out. Else
/// the actor turns to the state it should be in.
pub open spec fn animation_step(
    controller: AnimationController,
    velocity: Vec3,
    player: Player,
    health: Health,
    stamina: Stamina,
    attack_state: AttackState,
    keys: AnimationKeys,
    dt: int,
) -> AnimationController {
    let ticked = controller_ticked(controller, dt);
    if health.current == 0 {
        turned_to(ticked, AnimationState::Death)
    } else if !ticked.can_interrupt && ticked.transition_timer > 0 {
        ticked
    } else {
        turned_to(ticked, desired_state(velocity, player, health, stamina, attack_state, keys))
    }
}

/// The fixed duration of `state`.
pub fn duration_of(state: AnimationState) -> (duration: u32)
    ensures
        duration == nominal_duration(state),
{
    match state {
        AnimationState::Roll => ROLL_DURATION,
        AnimationState::Slash => SLASH_DURATION,
        AnimationState::Parry => PARRY_DURATION,
        AnimationState::Jump => JUMP_DURATION,
        AnimationState::Death => DEATH_DURATION,
        _ => 0,
    }
}

/// Whether `state` gives way to another before its duration is over.
pub fn can_be_interrupted(state: AnimationState) -> (yes: bool)
    ensures
        yes == is_interruptible(state),
{
    match state {
        AnimationState::Roll | AnimationState::Slash | AnimationState::Parry | AnimationState::Death => false,
        _ => true,
    }
}

/// Chooses the state that the actor should be in.
pub fn select_state(
    velocity: Vec3,
    player: &Player,
    health: &Health,
    stamina: &Stamina,
    attack_state: &AttackState,
    keys: AnimationKeys,
) -> (state: AnimationState)
    ensures
        state == desired_state(velocity, *player, *health, *stamina, *attack_state, keys),
{
    if health.current == 0 {
        AnimationState::Death
    } else if player.is_rolling {
        AnimationState::Roll
    } else if keys.block_held && keys.secondary_pressed && stamina.current >= PARRY_STAMINA {
        AnimationState::Parry
    } else if attack_state.is_attacking {
        AnimationState::Slash
    } else if velocity.y > JUMP_SPEED {
        AnimationState::Jump
    } else {
        let speed_sq: u128 = planar_length_squared(velocity);
        let walk: u128 = WALK_SPEED as u128;
        let run: u128 = RUN_SPEED as u128;
        assert(walk * walk == 10_000 && run * run == 9_000_000) by (nonlinear_arith)
            requires
                walk == 100,
                run == 3_000,
        ;
        if speed_sq > walk * walk {
            if keys.sprint_held && speed_sq > run * run {
                AnimationState::Run
            } else {
                AnimationState::Walk
            }
        } else {
            AnimationState::Idle
        }
    }
}

/// Turns the controller to `new_state`, for `duration` milliseconds.
pub fn transition_to_state(
    controller: &mut AnimationController,
    new_state: AnimationState,
    duration: u32,
    interruptible: bool,
)
    ensures
        *final(controller) == transitioned(*old(controller), new_state, duration, interruptible),
{
    controller.previous_state = controller.current_state;
    controller.current_state = new_state;
    controller.transition_timer = duration;
    if duration > 0 {
        controller.can_interrupt = interruptible;
        controller.is_transitioning = true;
    } else {
        controller.can_interrupt = true;
        controller.is_transitioning = false;
    }
}

/// Advances the animation of an actor by one tick of `dt` milliseconds.
pub fn update_animation_state(
    controller: &mut AnimationController,
    velocity: Vec3,
    player: &Player,
    health: &Health,
    stamina: &Stamina,
    attack_state: &AttackState,
    keys: AnimationKeys,
    dt: u32,
)
    ensures
        *final(controller) == animation_step(
            *old(controller),
            velocity,
            *player,
            *health,
            *stamina,
            *attack_state,
            keys,
            dt as int,
        ),
        health.current == 0 ==> final(controller).current_state == AnimationState::Death,
{
    controller.transition_timer = tick_down(controller.transition_timer, dt);
    if controller.transition_timer == 0 {
        controller.can_interrupt = true;
        controller.is_transitioning = false;
    }
    if health.current != 0 && !controller.can_interrupt && controller.transition_timer > 0 {
        return ;
    }
    let wanted = select_state(velocity, player, health, stamina, attack_state, keys);
    if controller.current_state != wanted {
        transition_to_state(controller, wanted, duration_of(wanted), can_be_interrupted(wanted));
    }
}

/// An actor without health shows death after every tick, whatever else it
/// is doing and whatever state it was in.
pub proof fn law_death_preempts(
    controller: AnimationController,
    velocity: Vec3,
    player: Player,
    health: Health,
    stamina: Stamina,
    attack_state: AttackState,
    keys: AnimationKeys,
    dt: u32,
)
    requires
        health.current == 0,
    ensures
        animation_step(
            controller,
            velocity,
            player,
            health,
            stamina,
            attack_state,
            keys,
            dt as int,
        ).current_state == AnimationState::Death,
{
}

/// A state that cannot be interrupted stays, with all that belongs to it,
/// while its timer runs and the actor lives.
pub proof fn law_uninterruptible_holds(
    controller: AnimationController,
    velocity: Vec3,
    player: Player,
    health: Health,
    stamina: Stamina,
    attack_state: AttackState,
    keys: AnimationKeys,
    dt: u32,
)
    requires
        health.current > 0,
        !controller.can_interrupt,
        controller.transition_timer > dt,
    ensures
        animation_step(controller, velocity, player, health, stamina, attack_state, keys, dt as int)
            == (AnimationController {
            transition_timer: (controller.transition_timer - dt) as u32,
            ..controller
        }),
{
}

} // verus!
