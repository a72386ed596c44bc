//! Weapons, the attack state of an actor, and hitboxes.

use vstd::prelude::*;
use crate::utils::timer::{counted_down, tick_down};

verus! {

/// The fixed stats of a weapon: damage and stamina cost in thousandths of a
/// point, range in thousandths of a length unit, cooldown in milliseconds.
#[derive(Clone, Copy, Debug, PartialEq, Eq, Structural)]
pub struct Weapon {
    pub damage: u32,
    pub attack_range: u32,
    pub attack_cooldown: u32,
    pub stamina_cost: u32,
}

/// Where an actor stands in its attack: `attack_timer` is the rest of the
/// cooldown in milliseconds, and `can_attack` holds once it has run out.
#[derive(Clone, Copy, Debug, PartialEq, Eq, Structural)]
pub struct AttackState {
    pub is_attacking: bool,
    pub attack_timer: u32,
    pub can_attack: bool,
}

/// The damage window of one attack. It hits at most once: `active` holds
/// until it has hit. `lifetime` is a countdown in milliseconds.
#[derive(Clone, Copy, Debug, PartialEq, Eq, Structural)]
pub struct Hitbox {
    pub radius: u32,
    pub damage: u32,
    pub active: bool,
    pub lifetime: u32,
}

/// The hitbox with its lifetime run down by `dt` milliseconds.
pub open spec fn hitbox_aged(hitbox: Hitbox, dt: int) -> Hitbox {
    Hitbox { lifetime: counted_down(hitbox.lifetime as int, dt) as u32, ..hitbox }
}

impl Default for Weapon {
    fn default() -> (w: Weapon)
        ensures
            w == (Weapon {
                damage: 25_000,
                attack_range: 2_000,
                attack_cooldown: 1_000,
                stamina_cost: 15_000,
            }),
    {
        Weapon { damage: 25_000, attack_range: 2_000, attack_cooldown: 1_000, stamina_cost: 15_000 }
    }
}

impl Default for AttackState {
    /// An actor at rest, free to attack.
    fn default() -> (s: AttackState)
        ensures
            s == (AttackState { is_attacking: false, attack_timer: 0, can_attack: true }),
    {
        AttackState { is_attacking: false, attack_timer: 0, can_attack: true }
    }
}

impl Default for Hitbox {
    fn default() -> (h: Hitbox)
        ensures
            h == (Hitbox { radius: 1_500, damage: 25_000, active: false, lifetime: 200 }),
    {
        Hitbox { radius: 1_500, damage: 25_000, active: false, lifetime: 200 }
    }
}

impl Hitbox {
    /// Runs the lifetime down by `dt` milliseconds and tells whether the
    /// hitbox has expired, which it has once the lifetime is zero.
    pub fn tick(&mut self, dt: u32) -> (expired: bool)
        ensures
            *final(self) == hitbox_aged(*old(self), dt as int),
            expired == (final(self).lifetime == 0),
    {
        self.lifetime = tick_down(self.lifetime, dt);
        self.lifetime == 0
    }
}

} // verus!
