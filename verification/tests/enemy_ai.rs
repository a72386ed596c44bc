use combat_core::components::enemy::{AIState, AIStateType, Enemy, EnemyType};
use combat_core::components::stats::Health;
use combat_core::systems::enemy_ai::{
    attack_effect_system, enemy_ai_step, enemy_ai_system, enemy_attack_system,
    resolve_enemy_attack, AiDecision, AttackEffect, EnemyAgent, Movement, PlayerSighting,
    ARRIVAL_RADIUS, ATTACK_EFFECT_LIFETIME, IDLE_TIME, PATROL_TIME, SEARCH_TIME,
    STUN_RECOVERY_TIME,
};
use combat_core::utils::math::{PlanarVelocity, Vec3};

const PLAYER: u64 = 42;

fn at(x: i32) -> Vec3 {
    Vec3 { x, y: 0, z: 0 }
}

fn player_at(x: i32) -> PlayerSighting {
    PlayerSighting { entity: PLAYER, position: at(x) }
}

fn machine(state: AIStateType, state_timer: u32, attack_timer: u32) -> AIState {
    AIState {
        current_state: state,
        target: None,
        state_timer,
        attack_timer,
        last_known_player_position: Vec3 { x: -1, y: -2, z: -3 },
    }
}

const KEEP: AiDecision = AiDecision { movement: Movement::Keep, attack: false };
const STOP: AiDecision = AiDecision { movement: Movement::Stop, attack: false };

fn moving(x: i64, z: i64) -> AiDecision {
    AiDecision { movement: Movement::Move(PlanarVelocity { x, z }), attack: false }
}

#[test]
fn enemy_defaults() {
    let e = Enemy::default();
    assert_eq!(e.ai_type, EnemyType::BasicMelee);
    assert_eq!(e.detection_range, 8_000);
    assert_eq!(e.attack_range, 2_000);
    assert_eq!(e.move_speed, 3_000);
    assert_eq!(e.attack_damage, 20_000);
    assert_eq!(e.attack_cooldown, 2_000);
    let s = AIState::default();
    assert_eq!(s.current_state, AIStateType::Idle);
    assert_eq!(s.target, None);
    assert_eq!(s.state_timer, 0);
    assert_eq!(s.attack_timer, 0);
    assert_eq!(s.last_known_player_position, Vec3 { x: 0, y: 0, z: 0 });
    assert_eq!(AIStateType::default(), AIStateType::Idle);
}

#[test]
fn the_times_of_the_machine() {
    assert_eq!(PATROL_TIME, 3_000);
    assert_eq!(IDLE_TIME, 2_000);
    assert_eq!(SEARCH_TIME, 5_000);
    assert_eq!(STUN_RECOVERY_TIME, 1_000);
    assert_eq!(ARRIVAL_RADIUS, 1_000);
    assert_eq!(ATTACK_EFFECT_LIFETIME, 300);
}

#[test]
fn idle_waits_while_the_timer_runs() {
    let mut ai = machine(AIStateType::Idle, 1_000, 500);
    let before = ai;
    let d = enemy_ai_step(&Enemy::default(), &mut ai, at(0), player_at(10_000), 16);
    assert_eq!(d, KEEP);
    assert_eq!(ai, AIState { state_timer: 984, attack_timer: 484, ..before });
}

#[test]
fn idle_turns_to_patrol_when_the_timer_runs_out() {
    let mut ai = machine(AIStateType::Idle, 16, 0);
    let before = ai;
    let d = enemy_ai_step(&Enemy::default(), &mut ai, at(0), player_at(10_000), 16);
    assert_eq!(d, KEEP);
    assert_eq!(
        ai,
        AIState { current_state: AIStateType::Patrol, state_timer: 3_000, attack_timer: 0, ..before }
    );
}

#[test]
fn idle_detects_the_player_in_range() {
    let mut ai = machine(AIStateType::Idle, 1_000, 0);
    let d = enemy_ai_step(&Enemy::default(), &mut ai, at(0), player_at(7_000), 16);
    assert_eq!(d, KEEP);
    assert_eq!(ai.current_state, AIStateType::Chase);
    assert_eq!(ai.target, Some(PLAYER));
    assert_eq!(ai.last_known_player_position, at(7_000));
    assert_eq!(ai.state_timer, 984);
}

#[test]
fn idle_detection_goes_before_the_timer() {
    let mut ai = machine(AIStateType::Idle, 0, 0);
    enemy_ai_step(&Enemy::default(), &mut ai, at(0), player_at(7_000), 16);
    assert_eq!(ai.current_state, AIStateType::Chase);
    assert_eq!(ai.state_timer, 0);
}

#[test]
fn detection_range_includes_its_boundary() {
    let mut on = machine(AIStateType::Idle, 1_000, 0);
    enemy_ai_step(&Enemy::default(), &mut on, at(0), player_at(8_000), 16);
    assert_eq!(on.current_state, AIStateType::Chase);
    let mut off = machine(AIStateType::Idle, 1_000, 0);
    enemy_ai_step(&Enemy::default(), &mut off, at(0), player_at(8_001), 16);
    assert_eq!(off.current_state, AIStateType::Idle);
    assert_eq!(off.target, None);
}

#[test]
fn distance_is_measured_in_space() {
    let mut ai = machine(AIStateType::Idle, 1_000, 0);
    let player = PlayerSighting { entity: PLAYER, position: Vec3 { x: 4_000, y: 4_000, z: 6_000 } };
    // 4000^2 + 4000^2 + 6000^2 is above 8000^2.
    enemy_ai_step(&Enemy::default(), &mut ai, at(0), player, 16);
    assert_eq!(ai.current_state, AIStateType::Idle);
    let nearer = PlayerSighting { entity: PLAYER, position: Vec3 { x: 4_000, y: 4_000, z: 5_000 } };
    enemy_ai_step(&Enemy::default(), &mut ai, at(0), nearer, 16);
    assert_eq!(ai.current_state, AIStateType::Chase);
}

#[test]
fn patrol_goes_on_while_the_timer_runs() {
    let mut ai = machine(AIStateType::Patrol, 3_000, 0);
    let d = enemy_ai_step(&Enemy::default(), &mut ai, at(0), player_at(10_000), 16);
    assert_eq!(d, KEEP);
    assert_eq!(ai.current_state, AIStateType::Patrol);
    assert_eq!(ai.state_timer, 2_984);
}

#[test]
fn patrol_ends_in_idle() {
    let mut ai = machine(AIStateType::Patrol, 10, 0);
    let d = enemy_ai_step(&Enemy::default(), &mut ai, at(0), player_at(10_000), 16);
    assert_eq!(d, KEEP);
    assert_eq!(ai.current_state, AIStateType::Idle);
    assert_eq!(ai.state_timer, 2_000);
    assert_eq!(ai.target, None);
}

#[test]
fn patrol_detection_wins_over_the_timer() {
    let mut ai = machine(AIStateType::Patrol, 10, 0);
    enemy_ai_step(&Enemy::default(), &mut ai, at(0), player_at(5_000), 16);
    assert_eq!(ai.current_state, AIStateType::Chase);
    assert_eq!(ai.state_timer, 2_000);
    assert_eq!(ai.target, Some(PLAYER));
    assert_eq!(ai.last_known_player_position, at(5_000));
}

#[test]
fn chase_runs_toward_the_player() {
    let mut ai = machine(AIStateType::Chase, 0, 0);
    let d = enemy_ai_step(&Enemy::default(), &mut ai, at(1_000), player_at(6_000), 16);
    assert_eq!(d, moving(3_000, 0));
    assert_eq!(ai.current_state, AIStateType::Chase);
    assert_eq!(ai.last_known_player_position, at(6_000));
    let player = PlayerSighting { entity: PLAYER, position: Vec3 { x: -3_000, y: 0, z: 4_000 } };
    let back = enemy_ai_step(&Enemy::default(), &mut ai, at(0), player, 16);
    assert_eq!(back, moving(-1_800, 2_400));
}

#[test]
fn chase_refreshes_the_last_known_position_up_to_one_and_a_half_ranges() {
    let mut ai = machine(AIStateType::Chase, 0, 0);
    enemy_ai_step(&Enemy::default(), &mut ai, at(0), player_at(12_000), 16);
    assert_eq!(ai.last_known_player_position, at(12_000));
    let d = enemy_ai_step(&Enemy::default(), &mut ai, at(0), player_at(12_001), 16);
    assert_eq!(ai.last_known_player_position, at(12_000));
    assert_eq!(ai.current_state, AIStateType::Chase);
    assert_eq!(d, moving(3_000, 0));
}

#[test]
fn chase_turns_to_attack_in_attack_range() {
    let mut ai = machine(AIStateType::Chase, 0, 0);
    let d = enemy_ai_step(&Enemy::default(), &mut ai, at(0), player_at(2_000), 16);
    assert_eq!(d, KEEP);
    assert_eq!(ai.current_state, AIStateType::Attack);
    assert_eq!(ai.attack_timer, 2_000);
    assert_eq!(ai.last_known_player_position, at(2_000));
    let mut out = machine(AIStateType::Chase, 0, 0);
    enemy_ai_step(&Enemy::default(), &mut out, at(0), player_at(2_001), 16);
    assert_eq!(out.current_state, AIStateType::Chase);
}

#[test]
fn chase_turns_to_search_beyond_two_ranges() {
    let mut ai = machine(AIStateType::Chase, 0, 0);
    let still = enemy_ai_step(&Enemy::default(), &mut ai, at(0), player_at(16_000), 16);
    assert_eq!(ai.current_state, AIStateType::Chase);
    assert_eq!(still, moving(3_000, 0));
    let d = enemy_ai_step(&Enemy::default(), &mut ai, at(0), player_at(16_001), 16);
    assert_eq!(d, KEEP);
    assert_eq!(ai.current_state, AIStateType::SearchLastKnown);
    assert_eq!(ai.state_timer, 5_000);
    assert_eq!(ai.last_known_player_position, Vec3 { x: -1, y: -2, z: -3 });
}

#[test]
fn attack_waits_for_its_timer() {
    let mut ai = machine(AIStateType::Attack, 0, 1_000);
    let d = enemy_ai_step(&Enemy::default(), &mut ai, at(0), player_at(1_500), 16);
    assert_eq!(d, STOP);
    assert_eq!(ai.current_state, AIStateType::Attack);
    assert_eq!(ai.attack_timer, 984);
}

#[test]
fn attack_strikes_when_the_timer_runs_out() {
    let mut ai = machine(AIStateType::Attack, 0, 10);
    let d = enemy_ai_step(&Enemy::default(), &mut ai, at(0), player_at(1_500), 16);
    assert_eq!(d, AiDecision { movement: Movement::Stop, attack: true });
    assert_eq!(ai.current_state, AIStateType::Chase);
    assert_eq!(ai.attack_timer, 2_000);
}

#[test]
fn attack_timer_runs_outside_the_attack_state() {
    let mut ai = machine(AIStateType::Stunned, 500, 100);
    enemy_ai_step(&Enemy::default(), &mut ai, at(0), player_at(1_500), 16);
    assert_eq!(ai.attack_timer, 84);
    assert_eq!(ai.state_timer, 484);
}

#[test]
fn attack_holds_at_exactly_one_point_two_ranges() {
    let mut ai = machine(AIStateType::Attack, 0, 1_000);
    let d = enemy_ai_step(&Enemy::default(), &mut ai, at(0), player_at(2_400), 16);
    assert_eq!(d, STOP);
    assert_eq!(ai.current_state, AIStateType::Attack);
}

#[test]
fn attack_breaks_off_just_beyond_one_point_two_ranges() {
    let mut ai = machine(AIStateType::Attack, 0, 1_000);
    let d = enemy_ai_step(&Enemy::default(), &mut ai, at(0), player_at(2_401), 16);
    assert_eq!(d, STOP);
    assert_eq!(ai.current_state, AIStateType::Chase);
    assert_eq!(ai.attack_timer, 984);
}

#[test]
fn search_walks_to_the_last_known_position_at_half_speed() {
    let mut ai = machine(AIStateType::SearchLastKnown, 3_000, 0);
    ai.last_known_player_position = at(5_000);
    let d = enemy_ai_step(&Enemy::default(), &mut ai, at(0), player_at(20_000), 16);
    assert_eq!(d, moving(1_500, 0));
    assert_eq!(ai.current_state, AIStateType::SearchLastKnown);
    assert_eq!(ai.state_timer, 2_984);
    assert_eq!(ai.last_known_player_position, at(5_000));
}

#[test]
fn search_ends_on_arrival() {
    let mut ai = machine(AIStateType::SearchLastKnown, 3_000, 0);
    ai.last_known_player_position = at(999);
    let d = enemy_ai_step(&Enemy::default(), &mut ai, at(0), player_at(20_000), 16);
    assert_eq!(d, STOP);
    assert_eq!(ai.current_state, AIStateType::Idle);
    assert_eq!(ai.state_timer, 2_000);
    let mut not_yet = machine(AIStateType::SearchLastKnown, 3_000, 0);
    not_yet.last_known_player_position = at(1_000);
    let on = enemy_ai_step(&Enemy::default(), &mut not_yet, at(0), player_at(20_000), 16);
    assert_eq!(on, moving(1_500, 0));
    assert_eq!(not_yet.current_state, AIStateType::SearchLastKnown);
}

#[test]
fn search_ends_when_the_timer_runs_out() {
    let mut ai = machine(AIStateType::SearchLastKnown, 16, 0);
    ai.last_known_player_position = at(5_000);
    let d = enemy_ai_step(&Enemy::default(), &mut ai, at(0), player_at(20_000), 16);
    assert_eq!(d, STOP);
    assert_eq!(ai.current_state, AIStateType::Idle);
    assert_eq!(ai.state_timer, 2_000);
}

#[test]
fn search_detects_the_player_again() {
    let mut ai = machine(AIStateType::SearchLastKnown, 3_000, 0);
    ai.last_known_player_position = at(5_000);
    let d = enemy_ai_step(&Enemy::default(), &mut ai, at(0), player_at(-7_000), 16);
    assert_eq!(d, moving(1_500, 0));
    assert_eq!(ai.current_state, AIStateType::Chase);
    assert_eq!(ai.last_known_player_position, at(-7_000));
    assert_eq!(ai.state_timer, 2_984);
}

#[test]
fn search_detection_overrides_the_end_of_the_search() {
    let mut ai = machine(AIStateType::SearchLastKnown, 10, 0);
    ai.last_known_player_position = at(5_000);
    let d = enemy_ai_step(&Enemy::default(), &mut ai, at(0), player_at(3_000), 16);
    assert_eq!(d, STOP);
    assert_eq!(ai.current_state, AIStateType::Chase);
    assert_eq!(ai.state_timer, 2_000);
    assert_eq!(ai.last_known_player_position, at(3_000));
}

#[test]
fn stunned_stands_still_and_recovers() {
    let mut ai = machine(AIStateType::Stunned, 100, 0);
    let d = enemy_ai_step(&Enemy::default(), &mut ai, at(0), player_at(1_000), 16);
    assert_eq!(d, STOP);
    assert_eq!(ai.current_state, AIStateType::Stunned);
    assert_eq!(ai.state_timer, 84);
    let over = enemy_ai_step(&Enemy::default(), &mut ai, at(0), player_at(1_000), 84);
    assert_eq!(over, STOP);
    assert_eq!(ai.current_state, AIStateType::Idle);
    assert_eq!(ai.state_timer, 1_000);
}

#[test]
fn a_full_engagement() {
    let enemy = Enemy::default();
    let mut ai = AIState::default();
    ai.state_timer = 2_000;
    // Out of range: idle.
    enemy_ai_step(&enemy, &mut ai, at(0), player_at(10_000), 16);
    assert_eq!(ai.current_state, AIStateType::Idle);
    // The player comes into range: chase.
    enemy_ai_step(&enemy, &mut ai, at(0), player_at(7_000), 16);
    assert_eq!(ai.current_state, AIStateType::Chase);
    // The enemy closes in: attack.
    enemy_ai_step(&enemy, &mut ai, at(5_500), player_at(7_000), 16);
    assert_eq!(ai.current_state, AIStateType::Attack);
    assert_eq!(ai.attack_timer, 2_000);
    // The cooldown runs, then the enemy strikes and chases again.
    let wait = enemy_ai_step(&enemy, &mut ai, at(5_500), player_at(7_000), 1_999);
    assert!(!wait.attack);
    assert_eq!(ai.current_state, AIStateType::Attack);
    let strike = enemy_ai_step(&enemy, &mut ai, at(5_500), player_at(7_000), 1);
    assert!(strike.attack);
    assert_eq!(ai.current_state, AIStateType::Chase);
    assert_eq!(ai.attack_timer, 2_000);
    // Still in range: the next tick re-enters the attack.
    enemy_ai_step(&enemy, &mut ai, at(5_500), player_at(7_000), 16);
    assert_eq!(ai.current_state, AIStateType::Attack);
    assert_eq!(ai.attack_timer, 2_000);
}

fn agent(x: i32, state: AIStateType, state_timer: u32, attack_timer: u32) -> EnemyAgent {
    EnemyAgent { position: at(x), config: Enemy::default(), state: machine(state, state_timer, attack_timer) }
}

#[test]
fn the_system_steps_every_enemy() {
    let mut agents = vec![
        agent(0, AIStateType::Idle, 1_000, 0),
        agent(3_000, AIStateType::Chase, 0, 0),
        agent(4_500, AIStateType::Attack, 0, 5),
    ];
    let decisions = enemy_ai_system(&mut agents, Some(player_at(6_000)), 16);
    assert_eq!(
        decisions,
        vec![KEEP, moving(3_000, 0), AiDecision { movement: Movement::Stop, attack: true }]
    );
    assert_eq!(agents[0].state.current_state, AIStateType::Chase);
    assert_eq!(agents[1].state.current_state, AIStateType::Chase);
    assert_eq!(agents[2].state.current_state, AIStateType::Chase);
    assert_eq!(agents[2].state.attack_timer, 2_000);
    assert_eq!(agents[0].position, at(0));
    assert_eq!(agents[1].config, Enemy::default());
}

#[test]
fn the_system_agrees_with_single_steps() {
    let mut agents = vec![
        agent(-9_000, AIStateType::Patrol, 7, 3),
        agent(100, AIStateType::SearchLastKnown, 900, 40),
        agent(2_500, AIStateType::Stunned, 16, 16),
    ];
    let mut alone = agents.clone();
    let decisions = enemy_ai_system(&mut agents, Some(player_at(1_000)), 16);
    for i in 0..alone.len() {
        let a = &mut alone[i];
        let d = enemy_ai_step(&a.config, &mut a.state, a.position, player_at(1_000), 16);
        assert_eq!(d, decisions[i]);
        assert_eq!(*a, agents[i]);
    }
}

#[test]
fn without_a_player_the_tick_is_skipped() {
    let mut agents = vec![agent(0, AIStateType::Idle, 10, 10), agent(1, AIStateType::Attack, 0, 0)];
    let before = agents.clone();
    let decisions = enemy_ai_system(&mut agents, None, 16);
    assert!(decisions.is_empty());
    assert_eq!(agents, before);
}

#[test]
fn the_system_on_no_enemies() {
    let mut agents: Vec<EnemyAgent> = Vec::new();
    assert!(enemy_ai_system(&mut agents, Some(player_at(0)), 16).is_empty());
    assert!(agents.is_empty());
}

#[test]
fn a_strike_in_range_hurts_the_player() {
    let mut health = Health { current: 100_000, max: 100_000 };
    // 0.9 attack ranges away.
    let effect = resolve_enemy_attack(&Enemy::default(), at(0), at(1_800), &mut health);
    assert_eq!(effect, Some(AttackEffect { lifetime: 300 }));
    assert_eq!(health, Health { current: 80_000, max: 100_000 });
}

#[test]
fn a_strike_out_of_range_is_dropped() {
    let mut health = Health { current: 100_000, max: 100_000 };
    // 1.1 attack ranges away.
    let effect = resolve_enemy_attack(&Enemy::default(), at(0), at(2_200), &mut health);
    assert_eq!(effect, None);
    assert_eq!(health, Health { current: 100_000, max: 100_000 });
}

#[test]
fn a_strike_at_exactly_the_attack_range_lands() {
    let mut health = Health { current: 15_000, max: 100_000 };
    let effect = resolve_enemy_attack(&Enemy::default(), at(0), at(-2_000), &mut health);
    assert!(effect.is_some());
    assert_eq!(health.current, 0);
    let mut other = Health { current: 15_000, max: 100_000 };
    assert!(resolve_enemy_attack(&Enemy::default(), at(0), at(-2_001), &mut other).is_none());
    assert_eq!(other.current, 15_000);
}

#[test]
fn the_attack_system_resolves_the_strikes_of_the_tick() {
    let agents = vec![
        agent(0, AIStateType::Chase, 0, 0),
        agent(1_000, AIStateType::Chase, 0, 0),
        agent(9_000, AIStateType::Chase, 0, 0),
        agent(500, AIStateType::Chase, 0, 0),
    ];
    let strike = AiDecision { movement: Movement::Stop, attack: true };
    let decisions = vec![strike, STOP, strike, strike];
    let mut health = Health { current: 100_000, max: 100_000 };
    let effects = enemy_attack_system(&agents, &decisions, at(1_500), &mut health);
    // The first and the last strike land; the third is out of range.
    assert_eq!(effects, vec![AttackEffect { lifetime: 300 }, AttackEffect { lifetime: 300 }]);
    assert_eq!(health, Health { current: 60_000, max: 100_000 });
}

#[test]
fn the_attack_system_ignores_enemies_without_a_decision() {
    let agents = vec![agent(0, AIStateType::Chase, 0, 0), agent(100, AIStateType::Chase, 0, 0)];
    let decisions = vec![AiDecision { movement: Movement::Stop, attack: true }];
    let mut health = Health { current: 30_000, max: 100_000 };
    let effects = enemy_attack_system(&agents, &decisions, at(0), &mut health);
    assert_eq!(effects.len(), 1);
    assert_eq!(health.current, 10_000);
    let none = enemy_attack_system(&agents, &Vec::new(), at(0), &mut health);
    assert!(none.is_empty());
    assert_eq!(health.current, 10_000);
}

#[test]
fn effects_fade_and_disappear() {
    let mut effects = vec![
        AttackEffect { lifetime: 300 },
        AttackEffect { lifetime: 10 },
        AttackEffect { lifetime: 16 },
        AttackEffect { lifetime: 17 },
    ];
    let expired = attack_effect_system(&mut effects, 16);
    assert_eq!(expired, vec![false, true, true, false]);
    assert_eq!(
        effects,
        vec![
            AttackEffect { lifetime: 284 },
            AttackEffect { lifetime: 0 },
            AttackEffect { lifetime: 0 },
            AttackEffect { lifetime: 1 },
        ]
    );
    effects.retain(|e| e.lifetime > 0);
    assert_eq!(attack_effect_system(&mut effects, 0), vec![false, false]);
    assert_eq!(effects, vec![AttackEffect { lifetime: 284 }, AttackEffect { lifetime: 1 }]);
    assert_eq!(attack_effect_system(&mut effects, 284), vec![true, true]);
    assert_eq!(effects, vec![AttackEffect { lifetime: 0 }, AttackEffect { lifetime: 0 }]);
    let mut none: Vec<AttackEffect> = Vec::new();
    assert!(attack_effect_system(&mut none, 16).is_empty());
}

#[test]
fn an_effect_lives_for_three_tenths_of_a_second() {
    let mut effects = vec![AttackEffect { lifetime: ATTACK_EFFECT_LIFETIME }];
    for _ in 0..18 {
        assert_eq!(attack_effect_system(&mut effects, 16), vec![false]);
    }
    assert_eq!(effects, vec![AttackEffect { lifetime: 12 }]);
    assert_eq!(attack_effect_system(&mut effects, 16), vec![true]);
    assert_eq!(effects, vec![AttackEffect { lifetime: 0 }]);
}
