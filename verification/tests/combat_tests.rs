use adventure::combat::{handle_battle, resolve, CombatOutcome, GUARDIAN_ATTACK, GUARDIAN_HEALTH};
use adventure::player::Player;
use adventure::world::FALLBACK_ROOM;

#[test]
fn strength_at_threshold_wins() {
    assert_eq!(resolve(80), CombatOutcome::Victory);
    assert_eq!(resolve(GUARDIAN_HEALTH), CombatOutcome::Victory);
    assert_eq!(resolve(81), CombatOutcome::Victory);
    assert_eq!(resolve(u32::MAX), CombatOutcome::Victory);
}

#[test]
fn strength_below_threshold_retreats() {
    assert_eq!(resolve(79), CombatOutcome::Retreat);
    assert_eq!(resolve(60), CombatOutcome::Retreat);
    assert_eq!(resolve(10), CombatOutcome::Retreat);
    assert_eq!(resolve(0), CombatOutcome::Retreat);
}

#[test]
fn resolution_is_deterministic() {
    for _ in 0..5 {
        assert_eq!(resolve(80), CombatOutcome::Victory);
        assert_eq!(resolve(79), CombatOutcome::Retreat);
    }
}

#[test]
fn lost_battle_applies_fixed_damage_and_forces_retreat() {
    let mut p = Player::new(String::from("Hero"));
    let won = handle_battle(&mut p);
    assert!(!won);
    assert_eq!(p.health, 100 - GUARDIAN_ATTACK);
    assert_eq!(p.location_id, FALLBACK_ROOM);
    assert_eq!(p.attack_power, 10);
}

#[test]
fn lost_battle_damage_saturates_at_zero() {
    let mut p = Player::new(String::from("Hero"));
    p.health = 10;
    let won = handle_battle(&mut p);
    assert!(!won);
    assert_eq!(p.health, 0);
    assert!(!p.is_alive());
}

#[test]
fn won_battle_leaves_the_player_untouched() {
    let mut p = Player::new(String::from("Hero"));
    p.attack_power = GUARDIAN_HEALTH;
    let won = handle_battle(&mut p);
    assert!(won);
    assert_eq!(p.health, 100);
    assert_eq!(p.location_id, 0);
    assert_eq!(p.attack_power, GUARDIAN_HEALTH);
}
