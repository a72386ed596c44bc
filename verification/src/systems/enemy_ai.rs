//! The behaviour machine of the enemies: detection, pursuit, attack, search.
//!
//! One step reads the positions of the enemy and of the tracked player, runs
//! both timers down, and moves the machine to its next state. What the enemy
//! is to do is handed back as a decision: how to move, and whether to strike.

use vstd::prelude::*;
use crate::components::enemy::{AIState, AIStateType, Enemy};
use crate::components::stats::{damaged, Health};
use crate::utils::math::{
    dist_sq, distance_squared, is_within, is_within_scaled, velocity_toward,
    velocity_toward_spec, within, within_scaled, PlanarVelocity, Vec3,
};
use crate::utils::timer::{counted_down, tick_down};

verus! {

/// Time an enemy patrols before it rests, in milliseconds.
pub const PATROL_TIME: u32 = 3_000;

/// Time an enemy rests before it patrols again, in milliseconds.
pub const IDLE_TIME: u32 = 2_000;

/// Time an enemy searches the last known position, in milliseconds.
pub const SEARCH_TIME: u32 = 5_000;

/// Time an enemy rests after a stun has worn off, in milliseconds.
pub const STUN_RECOVERY_TIME: u32 = 1_000;

/// How close to the last known position a search ends.
pub const ARRIVAL_RADIUS: u32 = 1_000;

/// Time a strike's visual effect stays, in milliseconds.
pub const ATTACK_EFFECT_LIFETIME: u32 = 300;

/// How an enemy is to move in the horizontal plane. Its vertical velocity is
/// never touched.
#[derive(Clone, Copy, Debug, PartialEq, Eq, Structural)]
pub enum Movement {
    /// Leave the velocity as it is.
    Keep,
    /// Set the horizontal velocity to zero.
    Stop,
    /// Set the horizontal velocity to the given one.
    Move(PlanarVelocity),
}

/// What one step of the machine asks of the enemy.
#[derive(Clone, Copy, Debug, PartialEq, Eq, Structural)]
pub struct AiDecision {
    pub movement: Movement,
    /// The enemy strikes now.
    pub attack: bool,
}

/// The entity that the enemies track, and where it is.
#[derive(Clone, Copy, Debug, PartialEq, Eq, Structural)]
pub struct PlayerSighting {
    pub entity: u64,
    pub position: Vec3,
}

/// One enemy as the behaviour system sees it.
#[derive(Clone, Copy, Debug, PartialEq, Eq, Structural)]
pub struct EnemyAgent {
    pub position: Vec3,
    pub config: Enemy,
    pub state: AIState,
}

/// The short-lived visual effect of a strike that landed.
#[derive(Clone, Copy, Debug, PartialEq, Eq, Structural)]
pub struct AttackEffect {
    pub lifetime: u32,
}

/// The player is within the detection range.
pub open spec fn detects(enemy: Enemy, d2: int) -> bool {
    within(d2, enemy.detection_range as int)
}

/// The player is within one and a half detection ranges: still in sight.
pub open spec fn tracks(enemy: Enemy, d2: int) -> bool {
    within_scaled(d2, enemy.detection_range as int, 3, 2)
}

/// The player is farther away than two detection ranges: lost.
pub open spec fn loses(enemy: Enemy, d2: int) -> bool {
    !within_scaled(d2, enemy.detection_range as int, 2, 1)
}

/// The player is within the attack range.
pub open spec fn reaches(enemy: Enemy, d2: int) -> bool {
    within(d2, enemy.attack_range as int)
}

/// The player is farther away than 1.2 attack ranges: out of the fight.
pub open spec fn escapes(enemy: Enemy, d2: int) -> bool {
    !within_scaled(d2, enemy.attack_range as int, 6, 5)
}

/// The enemy is closer than the arrival radius to a place at squared
/// distance `d2`.
pub open spec fn arrived(d2: int) -> bool {
    d2 < ARRIVAL_RADIUS * ARRIVAL_RADIUS
}

/// The machine with both timers run down by `dt` milliseconds.
pub open spec fn timers_ticked(ai: AIState, dt: int) -> AIState {
    AIState {
        state_timer: counted_down(ai.state_timer as int, dt) as u32,
        attack_timer: counted_down(ai.attack_timer as int, dt) as u32,
        ..ai
    }
}

/// A decision that changes nothing.
pub open spec fn no_decision() -> AiDecision {
    AiDecision { movement: Movement::Keep, attack: false }
}

/// A decision to stand still.
pub open spec fn stand_still() -> AiDecision {
    AiDecision { movement: Movement::Stop, attack: false }
}

/// The machine turned to the chase of `player`, seen at `player_pos`.
pub open spec fn alerted(ai: AIState, player: u64, player_pos: Vec3) -> AIState {
    AIState {
        current_state: AIStateType::Chase,
        target: Some(player),
        last_known_player_position: player_pos,
        ..ai
    }
}

/// Idle: detection starts the chase; else a run-out timer starts a patrol.
pub open spec fn idle_step(enemy: Enemy, ai: AIState, d2: int, player: PlayerSighting) -> (
    AIState,
    AiDecision,
) {
    if detects(enemy, d2) {
        (alerted(ai, player.entity, player.position), no_decision())
    } else if ai.state_timer == 0 {
        (AIState { current_state: AIStateType::Patrol, state_timer: PATROL_TIME, ..ai }, no_decision())
    } else {
        (ai, no_decision())
    }
}

/// Patrol: a run-out timer ends the patrol, and detection starts the chase
/// whether or not the timer has run out.
pub open spec fn patrol_step(enemy: Enemy, ai: AIState, d2: int, player: PlayerSighting) -> (
    AIState,
    AiDecision,
) {
    let rested = if ai.state_timer == 0 {
        AIState { current_state: AIStateType::Idle, state_timer: IDLE_TIME, ..ai }
    } else {
        ai
    };
    if detects(enemy, d2) {
        (alerted(rested, player.entity, player.position), no_decision())
    } else {
        (rested, no_decision())
    }
}

/// Chase: the last known position follows the player while in sight. In
/// attack range the enemy turns to attack; having lost the player it turns
/// to search; else it runs toward the player.
pub open spec fn chase_step(
    enemy: Enemy,
    ai: AIState,
    d2: int,
    enemy_pos: Vec3,
    player: PlayerSighting,
) -> (AIState, AiDecision) {
    let seen = if tracks(enemy, d2) {
        AIState { last_known_player_position: player.position, ..ai }
    } else {
        ai
    };
    if reaches(enemy, d2) {
        (
            AIState {
                current_state: AIStateType::Attack,
                attack_timer: enemy.attack_cooldown,
                ..seen
            },
            no_decision(),
        )
    } else if loses(enemy, d2) {
        (
            AIState {
                current_state: AIStateType::SearchLastKnown,
                state_timer: SEARCH_TIME,
                ..seen
            },
            no_decision(),
        )
    } else {
        (
            seen,
            AiDecision {
                movement: Movement::Move(
                    velocity_toward_spec(enemy_pos, player.position, enemy.move_speed as int),
                ),
                attack: false,
            },
        )
    }
}

/// Attack: the enemy stands still. With the attack timer run out it strikes,
/// re-arms the timer and returns to the chase; it also returns to the chase
/// once the player is farther away than 1.2 attack ranges.
pub open spec fn attack_step(enemy: Enemy, ai: AIState, d2: int) -> (AIState, AiDecision) {
    if ai.attack_timer == 0 {
        (
            AIState {
                current_state: AIStateType::Chase,
                attack_timer: enemy.attack_cooldown,
                ..ai
            },
            AiDecision { movement: Movement::Stop, attack: true },
        )
    } else if escapes(enemy, d2) {
        (AIState { current_state: AIStateType::Chase, ..ai }, stand_still())
    } else {
        (ai, stand_still())
    }
}

/// Search: the enemy walks at half speed toward the last known position
/// until it arrives or the timer runs out, and then rests. Detection starts
/// the chase again whatever else happened in the step.
pub open spec fn search_step(
    enemy: Enemy,
    ai: AIState,
    d2: int,
    enemy_pos: Vec3,
    player: PlayerSighting,
) -> (AIState, AiDecision) {
    let over = arrived(dist_sq(enemy_pos, ai.last_known_player_position)) || ai.state_timer == 0;
    let settled = if over {
        AIState { current_state: AIStateType::Idle, state_timer: IDLE_TIME, ..ai }
    } else {
        ai
    };
    let movement = if over {
        Movement::Stop
    } else {
        Movement::Move(
            velocity_toward_spec(
                enemy_pos,
                ai.last_known_player_position,
                enemy.move_speed as int / 2,
            ),
        )
    };
    let next = if detects(enemy, d2) {
        AIState {
            current_state: AIStateType::Chase,
            last_known_player_position: player.position,
            ..settled
        }
    } else {
        settled
    };
    (next, AiDecision { movement, attack: false })
}

/// Stunned: the enemy stands still and rests once the timer has run out.
pub open spec fn stunned_step(ai: AIState) -> (AIState, AiDecision) {
    if ai.state_timer == 0 {
        (
            AIState { current_state: AIStateType::Idle, state_timer: STUN_RECOVERY_TIME, ..ai },
            stand_still(),
        )
    } else {
        (ai, stand_still())
    }
}

/// One step of the machine: both timers run down by `dt`, then the handler
/// of the current state decides, on the distance between the two positions.
pub open spec fn ai_step(
    enemy: Enemy,
    ai: AIState,
    enemy_pos: Vec3,
    player: PlayerSighting,
    dt: int,
) -> (AIState, AiDecision) {
    let d2 = dist_sq(enemy_pos, player.position);
    let ticked = timers_ticked(ai, dt);
    match ai.current_state {
        AIStateType::Idle => idle_step(enemy, ticked, d2, player),
        AIStateType::Patrol => patrol_step(enemy, ticked, d2, player),
        AIStateType::Chase => chase_step(enemy, ticked, d2, enemy_pos, player),
        AIStateType::Attack => attack_step(enemy, ticked, d2),
        AIStateType::SearchLastKnown => search_step(enemy, ticked, d2, enemy_pos, player),
        AIStateType::Stunned => stunned_step(ticked),
    }
}

/// Advances the machine of one enemy by one tick of `dt` milliseconds and
/// returns what the enemy is to do.
pub fn enemy_ai_step(
    enemy: &Enemy,
    ai: &mut AIState,
    enemy_pos: Vec3,
    player: PlayerSighting,
    dt: u32,
) -> (decision: AiDecision)
    ensures
        (*final(ai), decision) == ai_step(*enemy, *old(ai), enemy_pos, player, dt as int),
{
    ai.state_timer = tick_down(ai.state_timer, dt);
    ai.attack_timer = tick_down(ai.attack_timer, dt);
    let d2: u128 = distance_squared(enemy_pos, player.position);
    let detected: bool = is_within(d2, enemy.detection_range);
    match ai.current_state {
        AIStateType::Idle => {
            if detected {
                ai.current_state = AIStateType::Chase;
                ai.target = Some(player.entity);
                ai.last_known_player_position = player.position;
            } else if ai.state_timer == 0 {
                ai.current_state = AIStateType::Patrol;
                ai.state_timer = PATROL_TIME;
            }
            AiDecision { movement: Movement::Keep, attack: false }
        },
        AIStateType::Patrol => {
            if ai.state_timer == 0 {
                ai.current_state = AIStateType::Idle;
                ai.state_timer = IDLE_TIME;
            }
            if detected {
                ai.current_state = AIStateType::Chase;
                ai.target = Some(player.entity);
                ai.last_known_player_position = player.position;
            }
            AiDecision { movement: Movement::Keep, attack: false }
        },
        AIStateType::Chase => {
            if is_within_scaled(d2, enemy.detection_range, 3, 2) {
                ai.last_known_player_position = player.position;
            }
            if is_within(d2, enemy.attack_range) {
                ai.current_state = AIStateType::Attack;
                ai.attack_timer = enemy.attack_cooldown;
                AiDecision { movement: Movement::Keep, attack: false }
            } else if !is_within_scaled(d2, enemy.detection_range, 2, 1) {
                ai.current_state = AIStateType::SearchLastKnown;
                ai.state_timer = SEARCH_TIME;
                AiDecision { movement: Movement::Keep, attack: false }
            } else {
                let v = velocity_toward(enemy_pos, player.position, enemy.move_speed);
                AiDecision { movement: Movement::Move(v), attack: false }
            }
        },
        AIStateType::Attack => {
            if ai.attack_timer == 0 {
                ai.current_state = AIStateType::Chase;
                ai.attack_timer = enemy.attack_cooldown;
                AiDecision { movement: Movement::Stop, attack: true }
            } else {
                if !is_within_scaled(d2, enemy.attack_range, 6, 5) {
                    ai.current_state = AIStateType::Chase;
                }
                AiDecision { movement: Movement::Stop, attack: false }
            }
        },
        AIStateType::SearchLastKnown => {
            let to_last: u128 = distance_squared(enemy_pos, ai.last_known_player_position);
            let radius: u128 = ARRIVAL_RADIUS as u128;
            assert(radius * radius == 1_000_000) by (nonlinear_arith)
                requires
                    radius == 1_000,
            ;
            let over: bool = to_last < radius * radius || ai.state_timer == 0;
            let movement = if over {
                Movement::Stop
            } else {
                Movement::Move(
                    velocity_toward(enemy_pos, ai.last_known_player_position, enemy.move_speed / 2),
                )
            };
            if over {
                ai.current_state = AIStateType::Idle;
                ai.state_timer = IDLE_TIME;
            }
            if detected {
                ai.current_state = AIStateType::Chase;
                ai.last_known_player_position = player.position;
            }
            AiDecision { movement, attack: false }
        },
        AIStateType::Stunned => {
            if ai.state_timer == 0 {
                ai.current_state = AIStateType::Idle;
                ai.state_timer = STUN_RECOVERY_TIME;
            }
            AiDecision { movement: Movement::Stop, attack: false }
        },
    }
}

/// One agent after a step of its machine, and the decision of that step.
pub open spec fn agent_stepped(agent: EnemyAgent, player: PlayerSighting, dt: int) -> (
    EnemyAgent,
    AiDecision,
) {
    let stepped = ai_step(agent.config, agent.state, agent.position, player, dt);
    (EnemyAgent { state: stepped.0, ..agent }, stepped.1)
}

/// Advances the machines of all enemies by one tick and returns one decision
/// for each, in the order of `agents`. With no player to track the tick is
/// skipped: nothing changes and no decision is made.
pub fn enemy_ai_system(agents: &mut Vec<EnemyAgent>, player: Option<PlayerSighting>, dt: u32) -> (decisions:
    Vec<AiDecision>)
    ensures
        final(agents)@.len() == old(agents)@.len(),
        player is None ==> final(agents)@ == old(agents)@ && decisions@.len() == 0,
        player matches Some(p) ==> {
            &&& decisions@.len() == old(agents)@.len()
            &&& forall|i: int|
                0 <= i < old(agents)@.len() ==> (#[trigger] final(agents)@[i], decisions@[i])
                    == agent_stepped(old(agents)@[i], p, dt as int)
        },
{
    let mut decisions: Vec<AiDecision> = Vec::new();
    let p = match player {
        Some(p) => p,
        None => {
            return decisions;
        },
    };
    let ghost before = agents@;
    let n: usize = agents.len();
    let mut i: usize = 0;
    while i < n
        invariant
            i <= n,
            agents@.len() == n,
            before.len() == n,
            decisions@.len() == i,
            forall|j: int|
                0 <= j < i ==> (#[trigger] agents@[j], decisions@[j]) == agent_stepped(
                    before[j],
                    p,
                    dt as int,
                ),
            forall|j: int| i <= j < n ==> agents@[j] == before[j],
        decreases n - i,
    {
        let mut agent: EnemyAgent = agents[i];
        let config: Enemy = agent.config;
        let decision = enemy_ai_step(&config, &mut agent.state, agent.position, p, dt);
        agents.set(i, agent);
        decisions.push(decision);
        i += 1;
    }
    decisions
}

/// A strike lands where the enemy is within its attack range of the player
/// at the moment of the strike.
pub open spec fn strike_lands(enemy: Enemy, enemy_pos: Vec3, player_pos: Vec3) -> bool {
    reaches(enemy, dist_sq(enemy_pos, player_pos))
}

/// Resolves one strike of an enemy: in range the player takes the enemy's
/// damage and an effect is to be shown; out of range the strike is dropped.
pub fn resolve_enemy_attack(
    enemy: &Enemy,
    enemy_pos: Vec3,
    player_pos: Vec3,
    player_health: &mut Health,
) -> (effect: Option<AttackEffect>)
    ensures
        strike_lands(*enemy, enemy_pos, player_pos) ==> {
            &&& *final(player_health) == damaged(*old(player_health), enemy.attack_damage as int)
            &&& effect == Some(AttackEffect { lifetime: ATTACK_EFFECT_LIFETIME })
        },
        !strike_lands(*enemy, enemy_pos, player_pos) ==> {
            &&& *final(player_health) == *old(player_health)
            &&& effect is None
        },
        old(player_health).wf() ==> final(player_health).wf(),
{
    if is_within(distance_squared(enemy_pos, player_pos), enemy.attack_range) {
        player_health.apply_damage(enemy.attack_damage);
        Some(AttackEffect { lifetime: ATTACK_EFFECT_LIFETIME })
    } else {
        None
    }
}

/// Whether the agent at index `i` strikes and its strike lands.
pub open spec fn agent_hits(
    agents: Seq<EnemyAgent>,
    decisions: Seq<AiDecision>,
    player_pos: Vec3,
    i: int,
) -> bool {
    &&& 0 <= i < agents.len()
    &&& i < decisions.len()
    &&& decisions[i].attack
    &&& strike_lands(agents[i].config, agents[i].position, player_pos)
}

/// The player's health after the strikes of the first `n` agents.
pub open spec fn health_after_strikes(
    agents: Seq<EnemyAgent>,
    decisions: Seq<AiDecision>,
    player_pos: Vec3,
    health: Health,
    n: int,
) -> Health
    decreases n,
{
    if n <= 0 {
        health
    } else {
        let before = health_after_strikes(agents, decisions, player_pos, health, n - 1);
        if agent_hits(agents, decisions, player_pos, n - 1) {
            damaged(before, agents[n - 1].config.attack_damage as int)
        } else {
            before
        }
    }
}

/// The number of strikes that land among those of the first `n` agents.
pub open spec fn strikes_landed(
    agents: Seq<EnemyAgent>,
    decisions: Seq<AiDecision>,
    player_pos: Vec3,
    n: int,
) -> int
    decreases n,
{
    if n <= 0 {
        0
    } else {
        strikes_landed(agents, decisions, player_pos, n - 1) + if agent_hits(
            agents,
            decisions,
            player_pos,
            n - 1,
        ) {
            1int
        } else {
            0int
        }
    }
}

/// Resolves the strikes that the decisions of this tick ask for, in the
/// order of `agents`, each on the positions as they are now. Returns one
/// effect for each strike that landed.
pub fn enemy_attack_system(
    agents: &Vec<EnemyAgent>,
    decisions: &Vec<AiDecision>,
    player_pos: Vec3,
    player_health: &mut Health,
) -> (effects: Vec<AttackEffect>)
    ensures
        *final(player_health) == health_after_strikes(
            agents@,
            decisions@,
            player_pos,
            *old(player_health),
            agents@.len() as int,
        ),
        effects@.len() == strikes_landed(agents@, decisions@, player_pos, agents@.len() as int),
        forall|k: int|
            0 <= k < effects@.len() ==> (#[trigger] effects@[k]).lifetime == ATTACK_EFFECT_LIFETIME,
        old(player_health).wf() ==> final(player_health).wf(),
{
    let mut effects: Vec<AttackEffect> = Vec::new();
    let ghost start = *player_health;
    let n: usize = agents.len();
    let mut i: usize = 0;
    while i < n
        invariant
            i <= n,
            n == agents@.len(),
            *player_health == health_after_strikes(agents@, decisions@, player_pos, start, i as int),
            effects@.len() == strikes_landed(agents@, decisions@, player_pos, i as int),
            effects@.len() <= i,
            forall|k: int|
                0 <= k < effects@.len() ==> (#[trigger] effects@[k]).lifetime
                    == ATTACK_EFFECT_LIFETIME,
            start.wf() ==> player_health.wf(),
        decreases n - i,
    {
        if i < decisions.len() && decisions[i].attack {
            let agent: EnemyAgent = agents[i];
            match resolve_enemy_attack(&agent.config, agent.position, player_pos, player_health) {
                Some(effect) => {
                    effects.push(effect);
                },
                None => {},
            }
        }
        i += 1;
    }
    effects
}

/// The effect with its lifetime run down by `dt` milliseconds.
pub open spec fn effect_aged(effect: AttackEffect, dt: int) -> AttackEffect {
    AttackEffect { lifetime: counted_down(effect.lifetime as int, dt) as u32 }
}

/// Runs the lifetimes of the effects down by `dt` milliseconds. Every effect
/// stays in its place; the flag at its index tells whether its lifetime has
/// run out, in which case the caller removes it.
pub fn attack_effect_system(effects: &mut Vec<AttackEffect>, dt: u32) -> (expired: Vec<bool>)
    ensures
        final(effects)@.len() == old(effects)@.len(),
        expired@.len() == old(effects)@.len(),
        forall|i: int|
            0 <= i < old(effects)@.len() ==> #[trigger] final(effects)@[i] == effect_aged(
                old(effects)@[i],
                dt as int,
            ),
        forall|i: int|
            0 <= i < old(effects)@.len() ==> #[trigger] expired@[i] == (counted_down(
                old(effects)@[i].lifetime as int,
                dt as int,
            ) == 0),
{
    let ghost before = effects@;
    let mut expired: Vec<bool> = Vec::new();
    let n: usize = effects.len();
    let mut i: usize = 0;
    while i < n
        invariant
            i <= n,
            n == effects@.len(),
            n == before.len(),
            expired@.len() == i,
            forall|j: int| 0 <= j < i ==> #[trigger] effects@[j] == effect_aged(before[j], dt as int),
            forall|j: int|
                0 <= j < i ==> #[trigger] expired@[j] == (counted_down(
                    before[j].lifetime as int,
                    dt as int,
                ) == 0),
            forall|j: int| i <= j < n ==> effects@[j] == before[j],
        decreases n - i,
    {
        let left: u32 = tick_down(effects[i].lifetime, dt);
        effects.set(i, AttackEffect { lifetime: left });
        expired.push(left == 0);
        i += 1;
    }
    expired
}

/// An idle enemy that has the player within its detection range chases it
/// from the next tick on, and knows where the player was at that tick.
pub proof fn law_idle_detection(
    enemy: Enemy,
    ai: AIState,
    enemy_pos: Vec3,
    player: PlayerSighting,
    dt: u32,
)
    requires
        ai.current_state == AIStateType::Idle,
        dist_sq(enemy_pos, player.position) < enemy.detection_range * enemy.detection_range,
    ensures
        ai_step(enemy, ai, enemy_pos, player, dt as int).0.current_state == AIStateType::Chase,
        ai_step(enemy, ai, enemy_pos, player, dt as int).0.last_known_player_position == player.position,
        ai_step(enemy, ai, enemy_pos, player, dt as int).0.target == Some(player.entity),
{
}

/// No step leads into the stunned state: an enemy is stunned after a step
/// only if it was stunned before it.
pub proof fn law_stun_comes_from_outside(
    enemy: Enemy,
    ai: AIState,
    enemy_pos: Vec3,
    player: PlayerSighting,
    dt: u32,
)
    requires
        ai.current_state != AIStateType::Stunned,
    ensures
        ai_step(enemy, ai, enemy_pos, player, dt as int).0.current_state != AIStateType::Stunned,
{
}

/// An enemy strikes only out of the attack state, in the tick in which its
/// attack timer runs out; it then returns to the chase with the timer set to
/// its cooldown, and stands still.
pub proof fn law_strike_ends_attack(
    enemy: Enemy,
    ai: AIState,
    enemy_pos: Vec3,
    player: PlayerSighting,
    dt: u32,
)
    ensures
        ai_step(enemy, ai, enemy_pos, player, dt as int).1.attack <==> ai.current_state
            == AIStateType::Attack && ai.attack_timer <= dt,
        ai_step(enemy, ai, enemy_pos, player, dt as int).1.attack ==> {
            let next = ai_step(enemy, ai, enemy_pos, player, dt as int);
            &&& next.0.current_state == AIStateType::Chase
            &&& next.0.attack_timer == enemy.attack_cooldown
            &&& next.1.movement == Movement::Stop
        },
{
}

/// An attacking enemy whose attack timer is still running keeps attacking
/// while the player is at most 1.2 attack ranges away, that distance
/// included, and returns to the chase as soon as the player is farther away.
pub proof fn law_attack_hysteresis(
    enemy: Enemy,
    ai: AIState,
    enemy_pos: Vec3,
    player: PlayerSighting,
    dt: u32,
)
    requires
        ai.current_state == AIStateType::Attack,
        ai.attack_timer > dt,
    ensures
        25 * dist_sq(enemy_pos, player.position) <= 36 * (enemy.attack_range * enemy.attack_range)
            ==> ai_step(enemy, ai, enemy_pos, player, dt as int).0.current_state == AIStateType::Attack,
        25 * dist_sq(enemy_pos, player.position) > 36 * (enemy.attack_range * enemy.attack_range)
            ==> ai_step(enemy, ai, enemy_pos, player, dt as int).0.current_state == AIStateType::Chase,
{
}

} // verus!
