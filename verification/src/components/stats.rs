//! Health and stamina: the numeric resources of an actor.

use vstd::prelude::*;
use crate::utils::math::Vec3;

verus! {

/// Hit points of an actor, in thousandths of a point.
#[derive(Clone, Copy, Debug, PartialEq, Eq, Structural)]
pub struct Health {
    pub current: u32,
    pub max: u32,
}

/// Stamina of an actor, in thousandths of a point; `regen_rate` is per second.
#[derive(Clone, Copy, Debug, PartialEq, Eq, Structural)]
pub struct Stamina {
    pub current: u32,
    pub max: u32,
    pub regen_rate: u32,
}

/// Souls collected by the player.
#[derive(Clone, Copy, Debug, PartialEq, Eq, Structural)]
pub struct Souls {
    pub count: i32,
}

/// What a dead actor leaves behind, and where.
#[derive(Clone, Copy, Debug, PartialEq, Eq, Structural)]
pub struct DeathMarker {
    pub soul_amount: i32,
    pub position: Vec3,
}

/// The health left after `amount` points of damage: never below zero.
pub open spec fn damaged(h: Health, amount: int) -> Health {
    Health { current: if h.current >= amount { (h.current - amount) as u32 } else { 0 }, max: h.max }
}

/// The stamina gained in `dt` milliseconds at `rate` thousandths per second.
pub open spec fn regen_amount(rate: int, dt: int) -> int {
    rate * dt / 1000
}

/// The stamina after `dt` milliseconds of regeneration: never above `max`.
pub open spec fn regenerated(s: Stamina, dt: int) -> Stamina {
    let raised = s.current + regen_amount(s.regen_rate as int, dt);
    Stamina { current: if raised <= s.max { raised as u32 } else { s.max }, ..s }
}

/// The stamina after an attempt to spend `amount`: all of it or nothing.
pub open spec fn spent(s: Stamina, amount: int) -> Stamina {
    if s.current >= amount {
        Stamina { current: (s.current - amount) as u32, ..s }
    } else {
        s
    }
}

impl Health {
    /// The value lies within its bounds.
    pub open spec fn wf(&self) -> bool {
        self.current <= self.max
    }

    /// Full health with the given maximum.
    pub fn new(max: u32) -> (h: Health)
        ensures
            h == (Health { current: max, max }),
            h.wf(),
    {
        Health { current: max, max }
    }

    /// An actor without health left is dead.
    pub fn is_dead(&self) -> (dead: bool)
        ensures
            dead == (self.current == 0),
    {
        self.current == 0
    }

    /// Takes `amount` from the current health, stopping at zero, and tells
    /// whether the actor is dead afterwards.
    pub fn apply_damage(&mut self, amount: u32) -> (dead: bool)
        ensures
            *final(self) == damaged(*old(self), amount as int),
            dead == (final(self).current == 0),
            old(self).wf() ==> final(self).wf(),
    {
        self.current = self.current.saturating_sub(amount);
        self.current == 0
    }
}

impl Default for Health {
    fn default() -> (h: Health)
        ensures
            h == (Health { current: 100_000, max: 100_000 }),
    {
        Health { current: 100_000, max: 100_000 }
    }
}

impl Stamina {
    /// The value lies within its bounds.
    pub open spec fn wf(&self) -> bool {
        self.current <= self.max
    }

    /// Full stamina with the given maximum and regeneration rate.
    pub fn new(max: u32, regen_rate: u32) -> (s: Stamina)
        ensures
            s == (Stamina { current: max, max, regen_rate }),
            s.wf(),
    {
        Stamina { current: max, max, regen_rate }
    }

    /// Regenerates for `dt` milliseconds, stopping at the maximum.
    pub fn regen(&mut self, dt: u32)
        ensures
            *final(self) == regenerated(*old(self), dt as int),
            final(self).wf(),
            old(self).wf() ==> final(self).current >= old(self).current,
    {
        assert(self.regen_rate * dt <= 0xffff_ffff * 0xffff_ffff) by (nonlinear_arith)
            requires
                0 <= self.regen_rate <= 0xffff_ffff,
                0 <= dt <= 0xffff_ffff,
        ;
        assert(self.regen_rate * dt >= 0) by (nonlinear_arith)
            requires
                0 <= self.regen_rate,
                0 <= dt,
        ;
        let gain: u64 = (self.regen_rate as u64) * (dt as u64) / 1000;
        let raised: u64 = self.current as u64 + gain;
        if raised <= self.max as u64 {
            self.current = raised as u32;
        } else {
            self.current = self.max;
        }
    }

    /// Spends `amount` if that much is there and tells whether it did; spends
    /// nothing otherwise.
    pub fn try_spend(&mut self, amount: u32) -> (ok: bool)
        ensures
            ok == (old(self).current >= amount),
            *final(self) == spent(*old(self), amount as int),
            ok ==> final(self).current == old(self).current - amount,
            !ok ==> *final(self) == *old(self),
            old(self).wf() ==> final(self).wf(),
    {
        if self.current >= amount {
            self.current = self.current - amount;
            true
        } else {
            false
        }
    }
}

impl Default for Stamina {
    fn default() -> (s: Stamina)
        ensures
            s == (Stamina { current: 100_000, max: 100_000, regen_rate: 20_000 }),
    {
        Stamina { current: 100_000, max: 100_000, regen_rate: 20_000 }
    }
}

/// Something that happens to the stamina of an actor.
#[derive(Clone, Copy, Debug, PartialEq, Eq, Structural)]
pub enum StaminaEvent {
    /// Time passes, in milliseconds.
    Regen(u32),
    /// An action asks for this much stamina.
    Spend(u32),
}

/// The health after hits of the given amounts, in their order.
pub open spec fn health_after_hits(health: Health, amounts: Seq<u32>) -> Health
    decreases amounts.len(),
{
    if amounts.len() == 0 {
        health
    } else {
        damaged(health_after_hits(health, amounts.drop_last()), amounts.last() as int)
    }
}

/// The stamina after the given events, in their order.
pub open spec fn stamina_after(stamina: Stamina, events: Seq<StaminaEvent>) -> Stamina
    decreases events.len(),
{
    if events.len() == 0 {
        stamina
    } else {
        let earlier = stamina_after(stamina, events.drop_last());
        match events.last() {
            StaminaEvent::Regen(dt) => regenerated(earlier, dt as int),
            StaminaEvent::Spend(amount) => spent(earlier, amount as int),
        }
    }
}

/// Health that starts within its bounds stays within them, under the same
/// maximum, whatever hits it takes, and never rises.
pub proof fn law_health_stays_bounded(health: Health, amounts: Seq<u32>)
    requires
        health.wf(),
    ensures
        health_after_hits(health, amounts).wf(),
        health_after_hits(health, amounts).max == health.max,
        0 <= health_after_hits(health, amounts).current <= health.current,
    decreases amounts.len(),
{
    if amounts.len() > 0 {
        law_health_stays_bounded(health, amounts.drop_last());
    }
}

/// Stamina that starts within its bounds stays within them, under the same
/// maximum and rate, whatever is spent and however long it regenerates.
pub proof fn law_stamina_stays_bounded(stamina: Stamina, events: Seq<StaminaEvent>)
    requires
        stamina.wf(),
    ensures
        stamina_after(stamina, events).wf(),
        0 <= stamina_after(stamina, events).current <= stamina.max,
        stamina_after(stamina, events).max == stamina.max,
        stamina_after(stamina, events).regen_rate == stamina.regen_rate,
    decreases events.len(),
{
    if events.len() > 0 {
        law_stamina_stays_bounded(stamina, events.drop_last());
    }
}

/// Spending is all or nothing: an amount above what is there leaves the
/// stamina as it is, and any other amount is taken off exactly.
pub proof fn law_spend_all_or_nothing(stamina: Stamina, amount: u32)
    ensures
        amount > stamina.current ==> spent(stamina, amount as int) == stamina,
        amount <= stamina.current ==> spent(stamina, amount as int).current == stamina.current
            - amount,
        spent(stamina, amount as int).max == stamina.max,
        spent(stamina, amount as int).regen_rate == stamina.regen_rate,
{
}

impl Default for Souls {
    fn default() -> (s: Souls)
        ensures
            s == (Souls { count: 0 }),
    {
        Souls { count: 0 }
    }
}

} // verus!
