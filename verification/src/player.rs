//! Player state: identity, current location, health, combat strength and
//! inventory, with the mutation rules the simulation applies each turn.

use vstd::prelude::*;

use crate::world::Item;
use crate::world::START_ROOM;

verus! {

/// Health a freshly created player starts with.
pub const START_HEALTH: u32 = 100;

/// Combat strength a freshly created player starts with.
pub const START_ATTACK: u32 = 10;

pub struct Player {
    pub name: String,
    pub location_id: usize,
    pub health: u32,
    pub attack_power: u32,
    pub inventory: Vec<Item>,
}

/// The mathematical model of a player: the same fields with the inventory
/// abstracted to a sequence, so that specifications can describe how a turn
/// rewrites it.
#[verifier::ext_equal]
pub struct PlayerModel {
    pub name: String,
    pub location_id: usize,
    pub health: u32,
    pub attack_power: u32,
    pub inventory: Seq<Item>,
}

impl View for Player {
    type V = PlayerModel;

    open spec fn view(&self) -> PlayerModel {
        PlayerModel {
            name: self.name,
            location_id: self.location_id,
            health: self.health,
            attack_power: self.attack_power,
            inventory: self.inventory@,
        }
    }
}

/// Subtraction of `b` from `a` that stops at zero instead of underflowing.
pub open spec fn saturating_sub(a: u32, b: u32) -> u32 {
    if a >= b {
        (a - b) as u32
    } else {
        0u32
    }
}

/// Health after `times` applications of `apply_damage(amount)` to a player
/// whose health is `h`.
pub open spec fn health_after_hits(h: u32, amount: u32, times: nat) -> u32
    decreases times,
{
    if times == 0 {
        h
    } else {
        saturating_sub(health_after_hits(h, amount, (times - 1) as nat), amount)
    }
}

impl Player {
    pub fn new(name: String) -> (p: Player)
        ensures
            p.name == name,
            p.location_id == START_ROOM,
            p.health == START_HEALTH,
            p.attack_power == START_ATTACK,
            p.inventory@ == Seq::<Item>::empty(),
    {
        let p = Player {
            name,
            location_id: START_ROOM,
            health: START_HEALTH,
            attack_power: START_ATTACK,
            inventory: Vec::new(),
        };
        proof {
            assert(p.inventory@ =~= Seq::<Item>::empty());
        }
        p
    }

    /// Unconditionally sets the current location. Callers are responsible for
    /// only passing destinations the world graph allows.
    pub fn move_to(&mut self, new_room_id: usize)
        ensures
            final(self).location_id == new_room_id,
            final(self).name == old(self).name,
            final(self).health == old(self).health,
            final(self).attack_power == old(self).attack_power,
            final(self).inventory == old(self).inventory,
    {
        self.location_id = new_room_id;
    }

    /// Absorbs an item: its strength bonus is added permanently and the item
    /// joins the inventory.
    pub fn pickup_item(&mut self, item: Item)
        requires
            old(self).attack_power + item.power_boost <= u32::MAX,
        ensures
            final(self).attack_power == old(self).attack_power + item.power_boost,
            final(self).inventory@ == old(self).inventory@.push(item),
            final(self).name == old(self).name,
            final(self).location_id == old(self).location_id,
            final(self).health == old(self).health,
    {
        self.attack_power = self.attack_power + item.power_boost;
        self.inventory.push(item);
    }

    /// Health decreases by `amount`, stopping at zero — it never underflows.
    pub fn apply_damage(&mut self, amount: u32)
        ensures
            final(self).health == saturating_sub(old(self).health, amount),
            final(self).name == old(self).name,
            final(self).location_id == old(self).location_id,
            final(self).attack_power == old(self).attack_power,
            final(self).inventory == old(self).inventory,
    {
        self.health = if self.health >= amount {
            self.health - amount
        } else {
            0
        };
    }

    pub fn is_alive(&self) -> (r: bool)
        ensures
            r == (self.health > 0),
    {
        self.health > 0
    }
}

/// Repeated damage follows the saturating-subtraction law exactly: after
/// `times` hits of `amount`, health is the starting health minus the total
/// dealt, floored at zero — never negative.
pub proof fn lemma_health_after_hits(h: u32, amount: u32, times: nat)
    ensures
        health_after_hits(h, amount, times) as int == if h - times * amount >= 0 {
            h - times * amount
        } else {
            0
        },
    decreases times,
{
    if times == 0 {
        assert(times * amount == 0) by (nonlinear_arith)
            requires
                times == 0,
        ;
    } else {
        lemma_health_after_hits(h, amount, (times - 1) as nat);
        assert((times - 1) * amount == times * amount - amount) by (nonlinear_arith);
    }
}

/// Cumulative damage converges to exactly zero: once enough hits of a
/// positive `amount` have landed, health is zero, and it never goes below.
pub proof fn lemma_damage_converges(h: u32, amount: u32, times: nat)
    requires
        amount >= 1,
        times * amount >= h,
    ensures
        health_after_hits(h, amount, times) == 0,
{
    lemma_health_after_hits(h, amount, times);
}

} // verus!
