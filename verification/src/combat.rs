//! Combat resolution: a deterministic, one-shot confrontation between the
//! player and the fixed guardian profile, decided by a single comparison.

use vstd::prelude::*;

use crate::player::Player;
use crate::player::saturating_sub;
use crate::world::FALLBACK_ROOM;

verus! {

/// The guardian's fixed health: the strength threshold the player must meet
/// to win outright.
pub const GUARDIAN_HEALTH: u32 = 80;

/// The guardian's fixed attack: the damage a retreating player takes.
pub const GUARDIAN_ATTACK: u32 = 15;

#[derive(Debug, PartialEq, Eq, Structural, Clone, Copy)]
pub enum CombatOutcome {
    Victory,
    Retreat,
}

/// The single-comparison combat rule: strength at or above the guardian's
/// health wins immediately, anything less forces a retreat.
pub open spec fn resolve_spec(attack_power: u32) -> CombatOutcome {
    if attack_power >= GUARDIAN_HEALTH {
        CombatOutcome::Victory
    } else {
        CombatOutcome::Retreat
    }
}

/// Resolves one confrontation. Deterministic and free of side effects: the
/// outcome is a pure function of the player's strength.
pub fn resolve(attack_power: u32) -> (r: CombatOutcome)
    ensures
        r == resolve_spec(attack_power),
        r == CombatOutcome::Victory <==> attack_power >= GUARDIAN_HEALTH,
{
    if attack_power >= GUARDIAN_HEALTH {
        CombatOutcome::Victory
    } else {
        CombatOutcome::Retreat
    }
}

/// The combat threshold is exact and the outcome a pure function of
/// strength: victory holds if and only if strength reaches the guardian's
/// health, and retreat in every other case — no randomness, no third
/// outcome.
pub proof fn lemma_combat_threshold(attack_power: u32)
    ensures
        resolve_spec(attack_power) == CombatOutcome::Victory <==> attack_power
            >= GUARDIAN_HEALTH,
        resolve_spec(attack_power) == CombatOutcome::Retreat <==> attack_power
            < GUARDIAN_HEALTH,
{
}

/// Fights the guardian: on victory the player is untouched; on retreat the
/// guardian's fixed attack lands (health saturating at zero) and the player
/// is forced back to the fallback location, bypassing the adjacency rules.
pub fn handle_battle(player: &mut Player) -> (victory: bool)
    ensures
        victory == (old(player).attack_power >= GUARDIAN_HEALTH),
        victory ==> *final(player) == *old(player),
        !victory ==> final(player).health == saturating_sub(
            old(player).health,
            GUARDIAN_ATTACK,
        ),
        !victory ==> final(player).location_id == FALLBACK_ROOM,
        final(player).name == old(player).name,
        final(player).attack_power == old(player).attack_power,
        final(player).inventory == old(player).inventory,
{
    match resolve(player.attack_power) {
        CombatOutcome::Victory => true,
        CombatOutcome::Retreat => {
            player.apply_damage(GUARDIAN_ATTACK);
            player.move_to(FALLBACK_ROOM);
            false
        },
    }
}

} // verus!
