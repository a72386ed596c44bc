//! Enemy configuration and the state of its behaviour machine.

use vstd::prelude::*;
use crate::utils::math::Vec3;

verus! {

/// The behaviour variant of an enemy. The variants differ in their
/// parameters only.
#[derive(Clone, Copy, Debug, PartialEq, Eq, Structural)]
pub enum EnemyType {
    BasicMelee,
    Archer,
    Boss,
}

/// The fixed parameters of an enemy: ranges in thousandths of a length unit,
/// speed per second, cooldown in milliseconds.
#[derive(Clone, Copy, Debug, PartialEq, Eq, Structural)]
pub struct Enemy {
    pub ai_type: EnemyType,
    pub detection_range: u32,
    pub attack_range: u32,
    pub move_speed: u32,
    pub attack_damage: u32,
    pub attack_cooldown: u32,
}

/// The states of the behaviour machine.
#[derive(Clone, Copy, Debug, PartialEq, Eq, Structural)]
pub enum AIStateType {
    Idle,
    Patrol,
    Chase,
    Attack,
    SearchLastKnown,
    Stunned,
}

/// The behaviour machine of one enemy. Both timers are countdowns in
/// milliseconds; `target` is the identifier of the tracked entity.
#[derive(Clone, Copy, Debug, PartialEq, Eq, Structural)]
pub struct AIState {
    pub current_state: AIStateType,
    pub target: Option<u64>,
    pub state_timer: u32,
    pub attack_timer: u32,
    pub last_known_player_position: Vec3,
}

impl Default for Enemy {
    fn default() -> (e: Enemy)
        ensures
            e == (Enemy {
                ai_type: EnemyType::BasicMelee,
                detection_range: 8_000,
                attack_range: 2_000,
                move_speed: 3_000,
                attack_damage: 20_000,
                attack_cooldown: 2_000,
            }),
    {
        Enemy {
            ai_type: EnemyType::BasicMelee,
            detection_range: 8_000,
            attack_range: 2_000,
            move_speed: 3_000,
            attack_damage: 20_000,
            attack_cooldown: 2_000,
        }
    }
}

impl Default for AIStateType {
    fn default() -> (s: AIStateType)
        ensures
            s == AIStateType::Idle,
    {
        AIStateType::Idle
    }
}

impl Default for AIState {
    fn default() -> (s: AIState)
        ensures
            s == (AIState {
                current_state: AIStateType::Idle,
                target: None,
                state_timer: 0,
                attack_timer: 0,
                last_known_player_position: Vec3 { x: 0, y: 0, z: 0 },
            }),
    {
        AIState {
            current_state: AIStateType::Idle,
            target: None,
            state_timer: 0,
            attack_timer: 0,
            last_known_player_position: Vec3 { x: 0, y: 0, z: 0 },
        }
    }
}

} // verus!
