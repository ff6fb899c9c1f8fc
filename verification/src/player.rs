//! The player's ledger: health, gold and score.
//!
//! Health and gold can never go negative: every subtraction clamps at zero,
//! and spending is refused outright when the price exceeds the balance.
//! Additions stop at `u32::MAX` instead of wrapping.
use vstd::prelude::*;
use crate::num::{sat_add_u32, sat_sub_u32};

verus! {

#[derive(Clone, Copy, Debug, PartialEq, Eq, Structural)]
pub struct Player {
    pub health: u32,
    pub gold: u32,
    pub score: u32,
}

impl Player {
    pub fn new(health: u32, gold: u32) -> (p: Player)
        ensures
            p == (Player { health, gold, score: 0u32 }),
    {
        Self { health, gold, score: 0 }
    }

    /// Health drops by `damage`, clamped at zero.
    pub fn take_damage(&mut self, damage: u32)
        ensures
            final(self).health == sat_sub_u32(old(self).health, damage),
            final(self).gold == old(self).gold,
            final(self).score == old(self).score,
    {
        if damage >= self.health {
            self.health = 0;
        } else {
            self.health = self.health - damage;
        }
    }

    pub fn add_gold(&mut self, amount: u32)
        ensures
            final(self).gold == sat_add_u32(old(self).gold, amount),
            final(self).health == old(self).health,
            final(self).score == old(self).score,
    {
        self.gold = self.gold.saturating_add(amount);
    }

    /// Gold drops by `amount` when affordable; otherwise nothing changes, so
    /// the balance can never go below zero.
    pub fn spend_gold(&mut self, amount: u32)
        ensures
            final(self).gold == (if amount <= old(self).gold {
                (old(self).gold - amount) as u32
            } else {
                old(self).gold
            }),
            final(self).health == old(self).health,
            final(self).score == old(self).score,
    {
        if amount <= self.gold {
            self.gold = self.gold - amount;
        }
    }

    pub fn add_score(&mut self, points: u32)
        ensures
            final(self).score == sat_add_u32(old(self).score, points),
            final(self).health == old(self).health,
            final(self).gold == old(self).gold,
    {
        self.score = self.score.saturating_add(points);
    }

    pub fn get_health(&self) -> (h: u32)
        ensures
            h == self.health,
    {
        self.health
    }

    pub fn get_gold(&self) -> (g: u32)
        ensures
            g == self.gold,
    {
        self.gold
    }

    pub fn get_score(&self) -> (s: u32)
        ensures
            s == self.score,
    {
        self.score
    }

    pub fn is_dead(&self) -> (d: bool)
        ensures
            d == (self.health == 0),
    {
        self.health == 0
    }
}

} // verus!
