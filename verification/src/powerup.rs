//! Timed powerups: once activated they stay active until their duration
//! (in milliseconds) runs out.
use vstd::prelude::*;
use crate::num::sat_sub_u32;

verus! {

#[derive(Clone, Copy, Debug, PartialEq, Eq, Structural)]
pub enum PowerupType {
    DamageBoost,
    GoldBoost,
}

#[derive(Clone, Copy, Debug, PartialEq, Eq, Structural)]
pub struct Powerup {
    pub powerup_type: PowerupType,
    /// Remaining duration in milliseconds.
    pub duration: u32,
    pub active: bool,
    pub cost: u32,
}

pub struct Powerup1;

pub struct Powerup2;

pub open spec fn powerup_new_spec(powerup_type: PowerupType) -> Powerup {
    match powerup_type {
        PowerupType::DamageBoost => Powerup {
            powerup_type,
            duration: 10_000u32,
            active: false,
            cost: 100u32,
        },
        PowerupType::GoldBoost => Powerup {
            powerup_type,
            duration: 20_000u32,
            active: false,
            cost: 150u32,
        },
    }
}

/// A tick burns `dt` milliseconds of an active powerup's duration and turns
/// it off when the duration runs out; an inactive powerup does not change.
pub open spec fn powerup_updated(p: Powerup, dt: u32) -> Powerup {
    if !p.active {
        p
    } else {
        let d = sat_sub_u32(p.duration, dt);
        Powerup { duration: d, active: d > 0, ..p }
    }
}

impl Powerup {
    pub fn new(powerup_type: PowerupType) -> (p: Powerup)
        ensures
            p == powerup_new_spec(powerup_type),
    {
        match powerup_type {
            PowerupType::DamageBoost => Powerup1::create(),
            PowerupType::GoldBoost => Powerup2::create(),
        }
    }

    pub fn activate(&mut self)
        ensures
            *final(self) == (Powerup { active: true, ..*old(self) }),
    {
        self.active = true;
    }

    /// Returns whether the powerup is still active after the tick.
    pub fn update(&mut self, dt: u32) -> (still_active: bool)
        ensures
            *final(self) == powerup_updated(*old(self), dt),
            still_active == final(self).active,
    {
        if !self.active {
            return false;
        }
        self.duration = self.duration.saturating_sub(dt);
        if self.duration == 0 {
            self.active = false;
            return false;
        }
        true
    }

    pub fn is_active(&self) -> (a: bool)
        ensures
            a == self.active,
    {
        self.active
    }

    pub fn get_cost(&self) -> (c: u32)
        ensures
            c == self.cost,
    {
        self.cost
    }

    pub fn get_duration(&self) -> (d: u32)
        ensures
            d == self.duration,
    {
        self.duration
    }

    pub fn get_type(&self) -> (t: PowerupType)
        ensures
            t == self.powerup_type,
    {
        self.powerup_type
    }
}

impl Powerup1 {
    pub fn create() -> (p: Powerup)
        ensures
            p == powerup_new_spec(PowerupType::DamageBoost),
    {
        Powerup { powerup_type: PowerupType::DamageBoost, duration: 10_000, active: false, cost: 100 }
    }
}

impl Powerup2 {
    pub fn create() -> (p: Powerup)
        ensures
            p == powerup_new_spec(PowerupType::GoldBoost),
    {
        Powerup { powerup_type: PowerupType::GoldBoost, duration: 20_000, active: false, cost: 150 }
    }
}

} // verus!
