use combat_core::components::combat::{AttackState, Weapon};
use combat_core::components::enemy::{AIState, AIStateType, Enemy};
use combat_core::components::player::{AnimationController, AnimationState, Player};
use combat_core::components::stats::{Health, Stamina};
use combat_core::systems::animation::{update_animation_state, AnimationKeys};
use combat_core::systems::combat::{combat_system, hitbox_system, PlacedHitbox, Target};
use combat_core::systems::enemy_ai::{
    enemy_ai_step, enemy_ai_system, enemy_attack_system, AiDecision, EnemyAgent, Movement,
    PlayerSighting,
};
use combat_core::systems::player_movement::{player_movement, MoveInput};
use combat_core::systems::ui::handle_death_ui;
use combat_core::states::GameState;
use combat_core::utils::math::{PlanarVelocity, Vec3};

const TICK: u32 = 16;
const AHEAD: Vec3 = Vec3 { x: 1_000, y: 0, z: 0 };

fn at(x: i32) -> Vec3 {
    Vec3 { x, y: 0, z: 0 }
}

fn sighting(x: i32) -> PlayerSighting {
    PlayerSighting { entity: 1, position: at(x) }
}

#[test]
fn an_enemy_notices_a_player_who_comes_near() {
    let enemy = Enemy::default();
    let mut ai = AIState { state_timer: 2_000, ..AIState::default() };
    // Ten units away, detection range eight: the enemy idles, then patrols.
    let mut elapsed = 0;
    while elapsed < 4_000 {
        let d = enemy_ai_step(&enemy, &mut ai, at(0), sighting(10_000), TICK);
        assert_eq!(d, AiDecision { movement: Movement::Keep, attack: false });
        assert!(matches!(ai.current_state, AIStateType::Idle | AIStateType::Patrol));
        elapsed += TICK;
    }
    assert_eq!(ai.current_state, AIStateType::Patrol);
    // The player steps within eight units: the chase starts in that tick.
    enemy_ai_step(&enemy, &mut ai, at(0), sighting(8_000), TICK);
    assert_eq!(ai.current_state, AIStateType::Chase);
    assert_eq!(ai.last_known_player_position, at(8_000));
    // And the enemy heads for the player at its speed.
    let d = enemy_ai_step(&enemy, &mut ai, at(0), sighting(8_000), TICK);
    assert_eq!(
        d,
        AiDecision { movement: Movement::Move(PlanarVelocity { x: 3_000, z: 0 }), attack: false }
    );
}

#[test]
fn an_attack_without_the_stamina_is_rejected() {
    let mut state = AttackState::default();
    let mut stamina = Stamina { current: 10_000, max: 100_000, regen_rate: 20_000 };
    let weapon = Weapon { damage: 25_000, attack_range: 2_000, attack_cooldown: 1_000, stamina_cost: 15_000 };
    let spawned = combat_system(&mut state, &mut stamina, &weapon, true, at(0), AHEAD, TICK);
    assert_eq!(spawned, None);
    assert_eq!(stamina.current, 10_000);
    assert_eq!(state, AttackState::default());
}

#[test]
fn two_hits_kill_an_enemy_of_fifty_points() {
    let weapon = Weapon::default();
    let mut state = AttackState::default();
    let mut stamina = Stamina::default();
    let mut enemies = vec![Target { position: at(1_500), health: Health { current: 50_000, max: 50_000 } }];
    let mut hitboxes: Vec<PlacedHitbox> = Vec::new();

    let first = combat_system(&mut state, &mut stamina, &weapon, true, at(0), AHEAD, TICK);
    hitboxes.push(first.expect("the first attack starts"));
    let outcomes = hitbox_system(&mut hitboxes, &mut enemies, TICK);
    assert_eq!(outcomes[0].hit, Some(0));
    assert!(!outcomes[0].killed);
    assert_eq!(enemies[0].health.current, 25_000);

    // While the cooldown runs no attack starts, and the hitbox of the first
    // attack does not hit again before it expires.
    for _ in 0..62 {
        let again = combat_system(&mut state, &mut stamina, &weapon, true, at(0), AHEAD, TICK);
        assert_eq!(again, None);
        let outcomes = hitbox_system(&mut hitboxes, &mut enemies, TICK);
        if let Some(outcome) = outcomes.first() {
            assert_eq!(outcome.hit, None);
            if outcome.expired {
                hitboxes.clear();
            }
        }
    }
    assert!(hitboxes.is_empty());
    assert_eq!(enemies[0].health.current, 25_000);

    // A new attack, a new hitbox, a second hit: the enemy is dead.
    let second = combat_system(&mut state, &mut stamina, &weapon, true, at(0), AHEAD, TICK);
    hitboxes.push(second.expect("the second attack starts"));
    let outcomes = hitbox_system(&mut hitboxes, &mut enemies, TICK);
    assert_eq!(outcomes[0].hit, Some(0));
    assert!(outcomes[0].killed);
    assert_eq!(enemies[0].health.current, 0);
    assert!(enemies[0].health.is_dead());
    assert_eq!(stamina.current, 70_000);
    // The dead enemy is out of the fight.
    hitboxes.push(PlacedHitbox { position: at(1_000), ..second.unwrap() });
    let after = hitbox_system(&mut hitboxes, &mut enemies, TICK);
    assert_eq!(after[1].hit, None);
}

#[test]
fn an_enemy_strike_lands_only_in_range() {
    let config = Enemy::default();
    let attacking = AIState {
        current_state: AIStateType::Attack,
        attack_timer: TICK,
        ..AIState::default()
    };
    // 0.9 attack ranges away: the strike lands.
    let mut agents = vec![EnemyAgent { position: at(0), config, state: attacking }];
    let mut health = Health::default();
    let decisions = enemy_ai_system(&mut agents, Some(sighting(1_800)), TICK);
    assert!(decisions[0].attack);
    let effects = enemy_attack_system(&agents, &decisions, at(1_800), &mut health);
    assert_eq!(effects.len(), 1);
    assert_eq!(health.current, 80_000);
    // 1.1 attack ranges away: the enemy strikes, and misses.
    let mut agents = vec![EnemyAgent { position: at(0), config, state: attacking }];
    let mut health = Health::default();
    let decisions = enemy_ai_system(&mut agents, Some(sighting(2_200)), TICK);
    assert!(decisions[0].attack);
    let effects = enemy_attack_system(&agents, &decisions, at(2_200), &mut health);
    assert!(effects.is_empty());
    assert_eq!(health.current, 100_000);
}

#[test]
fn a_player_hit_to_death_shows_death_in_the_same_tick() {
    let config = Enemy { attack_damage: 100_000, ..Enemy::default() };
    let state = AIState { current_state: AIStateType::Attack, attack_timer: 0, ..AIState::default() };
    let mut agents = vec![EnemyAgent { position: at(0), config, state }];
    let mut player = Player::default();
    let mut health = Health::default();
    let mut stamina = Stamina::default();
    let mut attack_state = AttackState::default();
    let mut controller = AnimationController::default();
    let keys = AnimationKeys { block_held: false, secondary_pressed: false, sprint_held: true };
    let input = MoveInput { moving: true, roll_pressed: true, sprint_held: true };

    player_movement(&mut player, &mut stamina, input, TICK);
    combat_system(&mut attack_state, &mut stamina, &Weapon::default(), true, at(500), AHEAD, TICK);
    let decisions = enemy_ai_system(&mut agents, Some(sighting(500)), TICK);
    enemy_attack_system(&agents, &decisions, at(500), &mut health);
    assert!(health.is_dead());
    assert!(player.is_rolling);
    assert!(attack_state.is_attacking);
    update_animation_state(
        &mut controller,
        Vec3 { x: 9_000, y: 0, z: 0 },
        &player,
        &health,
        &stamina,
        &attack_state,
        keys,
        TICK,
    );
    assert_eq!(controller.current_state, AnimationState::Death);
    assert_eq!(handle_death_ui(GameState::Playing, Some(health), false), Some(GameState::Death));
}
