//! Attacks: how one starts, what it costs, and whom its hitbox hurts.

use vstd::prelude::*;
use crate::components::combat::{hitbox_aged, AttackState, Hitbox, Weapon};
use crate::components::stats::{damaged, spent, Health, Stamina};
use crate::utils::math::{
    displace, displaced, dist_sq, distance_squared, is_within, within, Vec3,
};
use crate::utils::timer::{
    counted_down, counted_down_all, lemma_countdown_accumulates, tick_down, total_time,
};

verus! {

/// Time the hitbox of an attack stays, in milliseconds.
pub const HITBOX_LIFETIME: u32 = 200;

/// A hitbox and the place of its centre.
#[derive(Clone, Copy, Debug, PartialEq, Eq, Structural)]
pub struct PlacedHitbox {
    pub position: Vec3,
    pub hitbox: Hitbox,
}

/// An actor that a hitbox can hurt, and the place of its centre.
#[derive(Clone, Copy, Debug, PartialEq, Eq, Structural)]
pub struct Target {
    pub position: Vec3,
    pub health: Health,
}

/// What became of one hitbox in one tick.
#[derive(Clone, Copy, Debug, PartialEq, Eq, Structural)]
pub struct HitboxOutcome {
    /// The lifetime has run out: the hitbox is to be removed.
    pub expired: bool,
    /// The index of the target that was hit, if one was.
    pub hit: Option<usize>,
    /// The target that was hit has no health left: it is to be removed.
    pub killed: bool,
}

/// The attack state after `dt` milliseconds: a running timer runs down, and
/// once it has run out the attack is over and the next one may start.
pub open spec fn attack_ticked(state: AttackState, dt: int) -> AttackState {
    if state.attack_timer > 0 {
        let left = counted_down(state.attack_timer as int, dt);
        if left == 0 {
            AttackState { is_attacking: false, attack_timer: 0, can_attack: true }
        } else {
            AttackState { attack_timer: left as u32, ..state }
        }
    } else {
        state
    }
}

/// Whether an attack may start: the actor is free to attack, is not in an
/// attack already, and has the stamina that the weapon costs.
pub open spec fn attack_allowed(state: AttackState, stamina: Stamina, weapon: Weapon) -> bool {
    state.can_attack && !state.is_attacking && stamina.current >= weapon.stamina_cost
}

/// The attack state right after an attack with `weapon` has started.
pub open spec fn attack_started(weapon: Weapon) -> AttackState {
    AttackState { is_attacking: true, attack_timer: weapon.attack_cooldown, can_attack: false }
}

/// The hitbox of an attack with `weapon` by an actor at `position` that
/// faces along `forward`, a unit vector in thousandths: half the weapon's
/// range ahead, as wide as the weapon's range.
pub open spec fn attack_hitbox(position: Vec3, forward: Vec3, weapon: Weapon) -> PlacedHitbox {
    PlacedHitbox {
        position: displaced(position, forward, weapon.attack_range as int / 2),
        hitbox: Hitbox {
            radius: weapon.attack_range,
            damage: weapon.damage,
            active: true,
            lifetime: HITBOX_LIFETIME,
        },
    }
}

/// Runs the attack timer of an actor for `dt` milliseconds.
pub fn tick_attack_state(state: &mut AttackState, dt: u32)
    ensures
        *final(state) == attack_ticked(*old(state), dt as int),
{
    if state.attack_timer > 0 {
        state.attack_timer = tick_down(state.attack_timer, dt);
        if state.attack_timer == 0 {
            state.can_attack = true;
            state.is_attacking = false;
        }
    }
}

/// Makes the hitbox of an attack with `weapon`.
pub fn spawn_attack_hitbox(position: Vec3, forward: Vec3, weapon: &Weapon) -> (spawned: PlacedHitbox)
    ensures
        spawned == attack_hitbox(position, forward, *weapon),
{
    PlacedHitbox {
        position: displace(position, forward, weapon.attack_range / 2),
        hitbox: Hitbox {
            radius: weapon.attack_range,
            damage: weapon.damage,
            active: true,
            lifetime: HITBOX_LIFETIME,
        },
    }
}

/// Handles a request to attack. Where the attack is allowed it starts: the
/// stamina is spent, the cooldown begins, and the hitbox to spawn is
/// returned. Where it is not, nothing changes and nothing is returned.
pub fn try_attack(
    state: &mut AttackState,
    stamina: &mut Stamina,
    weapon: &Weapon,
    position: Vec3,
    forward: Vec3,
) -> (spawned: Option<PlacedHitbox>)
    ensures
        attack_allowed(*old(state), *old(stamina), *weapon) ==> {
            &&& *final(state) == attack_started(*weapon)
            &&& *final(stamina) == spent(*old(stamina), weapon.stamina_cost as int)
            &&& final(stamina).current == old(stamina).current - weapon.stamina_cost
            &&& spawned == Some(attack_hitbox(position, forward, *weapon))
        },
        !attack_allowed(*old(state), *old(stamina), *weapon) ==> {
            &&& *final(state) == *old(state)
            &&& *final(stamina) == *old(stamina)
            &&& spawned is None
        },
        !old(state).can_attack ==> spawned is None && *final(stamina) == *old(stamina),
        old(stamina).wf() ==> final(stamina).wf(),
{
    if state.can_attack && !state.is_attacking && stamina.try_spend(weapon.stamina_cost) {
        state.is_attacking = true;
        state.can_attack = false;
        state.attack_timer = weapon.attack_cooldown;
        Some(spawn_attack_hitbox(position, forward, weapon))
    } else {
        None
    }
}

/// One tick of an actor's attacks: the attack timer runs for `dt`
/// milliseconds, and then a request to attack, if there is one, is handled
/// as by `try_attack`.
pub fn combat_system(
    state: &mut AttackState,
    stamina: &mut Stamina,
    weapon: &Weapon,
    attack_requested: bool,
    position: Vec3,
    forward: Vec3,
    dt: u32,
) -> (spawned: Option<PlacedHitbox>)
    ensures
        attack_requested && attack_allowed(
            attack_ticked(*old(state), dt as int),
            *old(stamina),
            *weapon,
        ) ==> {
            &&& *final(state) == attack_started(*weapon)
            &&& *final(stamina) == spent(*old(stamina), weapon.stamina_cost as int)
            &&& final(stamina).current == old(stamina).current - weapon.stamina_cost
            &&& spawned == Some(attack_hitbox(position, forward, *weapon))
        },
        !(attack_requested && attack_allowed(
            attack_ticked(*old(state), dt as int),
            *old(stamina),
            *weapon,
        )) ==> {
            &&& *final(state) == attack_ticked(*old(state), dt as int)
            &&& *final(stamina) == *old(stamina)
            &&& spawned is None
        },
        !attack_ticked(*old(state), dt as int).can_attack ==> spawned is None && *final(stamina)
            == *old(stamina),
        old(stamina).wf() ==> final(stamina).wf(),
{
    tick_attack_state(state, dt);
    if attack_requested {
        try_attack(state, stamina, weapon, position, forward)
    } else {
        None
    }
}

/// A target with health left.
pub open spec fn is_live(target: Target) -> bool {
    target.health.current > 0
}

/// Whether a hitbox of the given radius centred at `centre` hits `target`:
/// the target is alive and its centre lies within the radius.
pub open spec fn hits(centre: Vec3, radius: int, target: Target) -> bool {
    is_live(target) && within(dist_sq(centre, target.position), radius)
}

/// The index of the first target from index `from` on that the hitbox hits.
pub open spec fn first_hit(centre: Vec3, radius: int, targets: Seq<Target>, from: int) -> Option<
    int,
>
    decreases targets.len() - from,
{
    if from < 0 || from >= targets.len() {
        None
    } else if hits(centre, radius, targets[from]) {
        Some(from)
    } else {
        first_hit(centre, radius, targets, from + 1)
    }
}

/// The target after a hit that deals `damage`.
pub open spec fn struck(target: Target, damage: int) -> Target {
    Target { health: damaged(target.health, damage), ..target }
}

/// The outcome of a tick in which the hitbox neither expired nor hit.
pub open spec fn no_outcome() -> HitboxOutcome {
    HitboxOutcome { expired: false, hit: None, killed: false }
}

/// One tick of one hitbox. Its lifetime runs down by `dt`; once that is
/// zero the hitbox has expired and hits nothing. While it is active, the
/// first target that it hits takes its damage, and the hitbox turns
/// inactive, so that it never hits again.
pub open spec fn hitbox_step(placed: PlacedHitbox, targets: Seq<Target>, dt: int) -> (
    PlacedHitbox,
    Seq<Target>,
    HitboxOutcome,
) {
    let aged = PlacedHitbox { hitbox: hitbox_aged(placed.hitbox, dt), ..placed };
    if aged.hitbox.lifetime == 0 {
        (aged, targets, HitboxOutcome { expired: true, hit: None, killed: false })
    } else if !placed.hitbox.active {
        (aged, targets, no_outcome())
    } else {
        match first_hit(placed.position, placed.hitbox.radius as int, targets, 0) {
            None => (aged, targets, no_outcome()),
            Some(k) => {
                let hurt = struck(targets[k], placed.hitbox.damage as int);
                (
                    PlacedHitbox { hitbox: Hitbox { active: false, ..aged.hitbox }, ..aged },
                    targets.update(k, hurt),
                    HitboxOutcome {
                        expired: false,
                        hit: Some(k as usize),
                        killed: hurt.health.current == 0,
                    },
                )
            },
        }
    }
}

/// `first_hit` finds the least index of a target that is hit, if there is one.
pub proof fn lemma_first_hit(centre: Vec3, radius: int, targets: Seq<Target>, from: int)
    requires
        0 <= from,
    ensures
        match first_hit(centre, radius, targets, from) {
            Some(k) => {
                &&& from <= k < targets.len()
                &&& hits(centre, radius, targets[k])
                &&& forall|j: int| from <= j < k ==> !hits(centre, radius, #[trigger] targets[j])
            },
            None => forall|j: int|
                from <= j < targets.len() ==> !hits(centre, radius, #[trigger] targets[j]),
        },
    decreases targets.len() - from,
{
    if from < targets.len() && !hits(centre, radius, targets[from]) {
        lemma_first_hit(centre, radius, targets, from + 1);
    }
}

/// Finds the first target that a hitbox of the given radius at `centre` hits.
pub fn find_first_hit(centre: Vec3, radius: u32, targets: &Vec<Target>) -> (found: Option<usize>)
    ensures
        match found {
            Some(k) => first_hit(centre, radius as int, targets@, 0) == Some(k as int),
            None => first_hit(centre, radius as int, targets@, 0) is None,
        },
{
    let n: usize = targets.len();
    let mut i: usize = 0;
    while i < n
        invariant
            i <= n,
            n == targets@.len(),
            first_hit(centre, radius as int, targets@, 0) == first_hit(
                centre,
                radius as int,
                targets@,
                i as int,
            ),
        decreases n - i,
    {
        let target: Target = targets[i];
        if target.health.current > 0 && is_within(
            distance_squared(centre, target.position),
            radius,
        ) {
            return Some(i);
        }
        i += 1;
    }
    None
}

/// Runs one hitbox for one tick of `dt` milliseconds against `targets`.
pub fn resolve_hitbox(placed: &mut PlacedHitbox, targets: &mut Vec<Target>, dt: u32) -> (outcome:
    HitboxOutcome)
    ensures
        (*final(placed), final(targets)@, outcome) == hitbox_step(
            *old(placed),
            old(targets)@,
            dt as int,
        ),
        final(targets)@.len() == old(targets)@.len(),
        forall|j: int|
            0 <= j < old(targets)@.len() ==> target_kept(old(targets)@[j], #[trigger] final(targets)@[j]),
{
    proof {
        lemma_hitbox_step_bounds(*placed, targets@, dt);
    }
    if placed.hitbox.tick(dt) {
        return HitboxOutcome { expired: true, hit: None, killed: false };
    }
    if !placed.hitbox.active {
        return HitboxOutcome { expired: false, hit: None, killed: false };
    }
    match find_first_hit(placed.position, placed.hitbox.radius, targets) {
        None => HitboxOutcome { expired: false, hit: None, killed: false },
        Some(k) => {
            proof {
                lemma_first_hit(placed.position, placed.hitbox.radius as int, targets@, 0);
            }
            let mut target: Target = targets[k];
            let killed: bool = target.health.apply_damage(placed.hitbox.damage);
            targets.set(k, target);
            placed.hitbox.active = false;
            HitboxOutcome { expired: false, hit: Some(k), killed }
        },
    }
}

/// The hitboxes, the targets and the outcomes after the first `n` hitboxes
/// have each had their tick, one after the other in their order. A target
/// that an earlier hitbox has killed is dead to the later ones.
pub open spec fn hitboxes_run(
    hitboxes: Seq<PlacedHitbox>,
    targets: Seq<Target>,
    dt: int,
    n: int,
) -> (Seq<PlacedHitbox>, Seq<Target>, Seq<HitboxOutcome>)
    decreases n,
{
    if n <= 0 {
        (hitboxes, targets, Seq::empty())
    } else {
        let earlier = hitboxes_run(hitboxes, targets, dt, n - 1);
        let step = hitbox_step(hitboxes[n - 1], earlier.1, dt);
        (earlier.0.update(n - 1, step.0), step.1, earlier.2.push(step.2))
    }
}

/// Runs all hitboxes for one tick of `dt` milliseconds against `targets`.
/// Every hitbox stays in its place and gets one outcome, at the same index:
/// the caller removes the hitboxes that expired and the targets that died.
pub fn hitbox_system(hitboxes: &mut Vec<PlacedHitbox>, targets: &mut Vec<Target>, dt: u32) -> (outcomes:
    Vec<HitboxOutcome>)
    ensures
        (final(hitboxes)@, final(targets)@, outcomes@) == hitboxes_run(
            old(hitboxes)@,
            old(targets)@,
            dt as int,
            old(hitboxes)@.len() as int,
        ),
        final(hitboxes)@.len() == old(hitboxes)@.len(),
        final(targets)@.len() == old(targets)@.len(),
        outcomes@.len() == old(hitboxes)@.len(),
        forall|j: int|
            0 <= j < old(targets)@.len() ==> target_kept(old(targets)@[j], #[trigger] final(targets)@[j]),
{
    let ghost hitboxes_before = hitboxes@;
    let ghost targets_before = targets@;
    let mut outcomes: Vec<HitboxOutcome> = Vec::new();
    let n: usize = hitboxes.len();
    let mut i: usize = 0;
    while i < n
        invariant
            i <= n,
            hitboxes@.len() == n,
            hitboxes_before.len() == n,
            targets@.len() == targets_before.len(),
            outcomes@.len() == i,
            (hitboxes@, targets@, outcomes@) == hitboxes_run(
                hitboxes_before,
                targets_before,
                dt as int,
                i as int,
            ),
            forall|j: int| i <= j < n ==> hitboxes@[j] == hitboxes_before[j],
            forall|j: int|
                0 <= j < targets_before.len() ==> target_kept(
                    targets_before[j],
                    #[trigger] targets@[j],
                ),
        decreases n - i,
    {
        let mut placed: PlacedHitbox = hitboxes[i];
        let outcome = resolve_hitbox(&mut placed, targets, dt);
        hitboxes.set(i, placed);
        outcomes.push(outcome);
        i += 1;
    }
    outcomes
}

/// What every tick keeps of a target: its place and its maximum of health.
/// Its health does not rise, and stays within its bounds if it was.
pub open spec fn target_kept(before: Target, after: Target) -> bool {
    &&& after.position == before.position
    &&& after.health.max == before.health.max
    &&& after.health.current <= before.health.current
    &&& before.health.wf() ==> after.health.wf()
}

/// A tick of a hitbox moves neither the hitbox nor a target, raises no
/// health and changes no maximum, and keeps every health within its bounds.
pub proof fn lemma_hitbox_step_bounds(placed: PlacedHitbox, targets: Seq<Target>, dt: u32)
    ensures
        hitbox_step(placed, targets, dt as int).1.len() == targets.len(),
        hitbox_step(placed, targets, dt as int).0.position == placed.position,
        forall|i: int|
            0 <= i < targets.len() ==> target_kept(
                targets[i],
                #[trigger] hitbox_step(placed, targets, dt as int).1[i],
            ),
{
    lemma_first_hit(placed.position, placed.hitbox.radius as int, targets, 0);
}

/// A hitbox hits at most one target. Where an active hitbox that has not
/// expired reaches two targets, it hits the first target in reach and no
/// other: that one takes the damage, every other target is as before, and
/// the hitbox is inactive afterwards and hurts nobody in any later tick.
pub proof fn law_single_target(
    placed: PlacedHitbox,
    targets: Seq<Target>,
    dt: u32,
    a: int,
    b: int,
    later: u32,
)
    requires
        targets.len() <= usize::MAX,
        placed.hitbox.active,
        placed.hitbox.lifetime > dt,
        0 <= a < targets.len(),
        0 <= b < targets.len(),
        a != b,
        hits(placed.position, placed.hitbox.radius as int, targets[a]),
        hits(placed.position, placed.hitbox.radius as int, targets[b]),
    ensures
        ({
            let step = hitbox_step(placed, targets, dt as int);
            &&& step.2.hit matches Some(k)
            &&& k <= a && k <= b
            &&& hits(placed.position, placed.hitbox.radius as int, targets[k as int])
            &&& step.1 == targets.update(
                k as int,
                struck(targets[k as int], placed.hitbox.damage as int),
            )
            &&& forall|j: int| 0 <= j < targets.len() && j != k ==> step.1[j] == targets[j]
            &&& step.1[a] == targets[a] || step.1[b] == targets[b]
            &&& !step.0.hitbox.active
            &&& hitbox_step(step.0, step.1, later as int).1 == step.1
        }),
{
    lemma_first_hit(placed.position, placed.hitbox.radius as int, targets, 0);
}

/// The hitbox, the targets and the outcome of the last tick after the ticks
/// `dts`, in their order.
pub open spec fn hitbox_after_ticks(placed: PlacedHitbox, targets: Seq<Target>, dts: Seq<u32>) -> (
    PlacedHitbox,
    Seq<Target>,
    HitboxOutcome,
)
    decreases dts.len(),
{
    if dts.len() == 0 {
        (placed, targets, no_outcome())
    } else {
        let earlier = hitbox_after_ticks(placed, targets, dts.drop_last());
        hitbox_step(earlier.0, earlier.1, dts.last() as int)
    }
}

/// A hitbox expires exactly when the ticks it has lived through add up to
/// its lifetime or more, whether or not it has hit a target.
pub proof fn law_hitbox_expiry(placed: PlacedHitbox, targets: Seq<Target>, dts: Seq<u32>)
    requires
        dts.len() > 0,
    ensures
        hitbox_after_ticks(placed, targets, dts).0.hitbox.lifetime == counted_down(
            placed.hitbox.lifetime as int,
            total_time(dts),
        ),
        hitbox_after_ticks(placed, targets, dts).2.expired <==> total_time(dts)
            >= placed.hitbox.lifetime,
{
    lemma_hitbox_lifetime(placed, targets, dts);
    lemma_countdown_accumulates(placed.hitbox.lifetime as int, dts);
}

/// The lifetime of a hitbox runs down tick by tick, whatever it hits.
proof fn lemma_hitbox_lifetime(placed: PlacedHitbox, targets: Seq<Target>, dts: Seq<u32>)
    ensures
        hitbox_after_ticks(placed, targets, dts).0.hitbox.lifetime == counted_down_all(
            placed.hitbox.lifetime as int,
            dts,
        ),
        dts.len() > 0 ==> (hitbox_after_ticks(placed, targets, dts).2.expired
            <==> counted_down_all(placed.hitbox.lifetime as int, dts) == 0),
    decreases dts.len(),
{
    if dts.len() > 0 {
        lemma_hitbox_lifetime(placed, targets, dts.drop_last());
    }
}

} // verus!
