use adventure::command::Direction;
use adventure::engine::{begin_turn, step, StepResult, TurnStart};
use adventure::player::Player;
use adventure::world::{create_world, FALLBACK_ROOM, FINAL_ROOM, START_ROOM, VAULT_ROOM};

#[test]
fn turn_start_picks_up_exactly_the_first_item() {
    let mut w = create_world();
    let mut p = Player::new(String::from("Hero"));
    let r = begin_turn(&mut w, &mut p);
    assert_eq!(r, TurnStart::PickedItem);
    assert!(w[START_ROOM].items.is_empty());
    assert_eq!(p.inventory.len(), 1);
    assert_eq!(p.inventory[0].name, "Old Torch");
    assert_eq!(p.attack_power, 10);
}

#[test]
fn drained_location_never_yields_another_pickup() {
    let mut w = create_world();
    let mut p = Player::new(String::from("Hero"));
    assert_eq!(begin_turn(&mut w, &mut p), TurnStart::PickedItem);
    // Re-entering (or staying in) the drained location picks nothing more.
    assert_eq!(begin_turn(&mut w, &mut p), TurnStart::NoItem);
    assert_eq!(begin_turn(&mut w, &mut p), TurnStart::NoItem);
    assert_eq!(p.inventory.len(), 1);
    assert_eq!(p.attack_power, 10);
}

#[test]
fn turn_start_in_cleared_final_location_wins() {
    let mut w = create_world();
    let mut p = Player::new(String::from("Hero"));
    w[FINAL_ROOM].monster_present = false;
    p.move_to(FINAL_ROOM);
    assert_eq!(begin_turn(&mut w, &mut p), TurnStart::Won);
}

#[test]
fn turn_start_in_guarded_final_location_does_not_win() {
    let mut w = create_world();
    let mut p = Player::new(String::from("Hero"));
    p.move_to(FINAL_ROOM);
    assert_eq!(begin_turn(&mut w, &mut p), TurnStart::NoItem);
}

#[test]
fn quit_halts_with_no_mutation() {
    let mut w = create_world();
    let mut p = Player::new(String::from("Hero"));
    let r = step(&mut w, &mut p, Direction::Quit);
    assert_eq!(r, StepResult::Quit);
    assert_eq!(p.location_id, START_ROOM);
    assert_eq!(p.health, 100);
    assert_eq!(p.attack_power, 10);
    assert!(p.inventory.is_empty());
    assert_eq!(w[START_ROOM].items.len(), 1);
    assert!(w[FINAL_ROOM].monster_present);
}

#[test]
fn invalid_input_changes_nothing() {
    let mut w = create_world();
    let mut p = Player::new(String::from("Hero"));
    let r = step(&mut w, &mut p, Direction::Invalid);
    assert_eq!(r, StepResult::Invalid);
    assert_eq!(p.location_id, START_ROOM);
    assert_eq!(p.health, 100);
}

#[test]
fn unwired_moves_leave_location_and_health_unchanged() {
    let mut w = create_world();
    let mut p = Player::new(String::from("Hero"));
    for d in [Direction::South, Direction::West] {
        let r = step(&mut w, &mut p, d);
        assert_eq!(r, StepResult::Blocked);
        assert_eq!(p.location_id, START_ROOM);
        assert_eq!(p.health, 100);
    }
    // The same holds from the vault, which has a single exit.
    p.move_to(VAULT_ROOM);
    for d in [Direction::North, Direction::South, Direction::East] {
        let r = step(&mut w, &mut p, d);
        assert_eq!(r, StepResult::Blocked);
        assert_eq!(p.location_id, VAULT_ROOM);
        assert_eq!(p.health, 100);
    }
}

#[test]
fn wired_moves_relocate_the_player() {
    let mut w = create_world();
    let mut p = Player::new(String::from("Hero"));
    assert_eq!(step(&mut w, &mut p, Direction::North), StepResult::Moved);
    assert_eq!(p.location_id, 1);
    assert_eq!(step(&mut w, &mut p, Direction::South), StepResult::Moved);
    assert_eq!(p.location_id, 0);
    assert_eq!(step(&mut w, &mut p, Direction::East), StepResult::Moved);
    assert_eq!(p.location_id, VAULT_ROOM);
}

#[test]
fn strong_player_defeats_the_guardian_and_wins_next_turn() {
    let mut w = create_world();
    let mut p = Player::new(String::from("Hero"));
    p.attack_power = 80;
    assert_eq!(step(&mut w, &mut p, Direction::North), StepResult::Moved);
    let r = step(&mut w, &mut p, Direction::West);
    assert_eq!(r, StepResult::CombatVictory);
    assert_eq!(p.location_id, FINAL_ROOM);
    assert_eq!(p.health, 100);
    assert!(!w[FINAL_ROOM].monster_present);
    // The win is only detected at the start of the next turn.
    assert_eq!(begin_turn(&mut w, &mut p), TurnStart::Won);
}

#[test]
fn weak_player_is_forced_back_with_fixed_damage() {
    let mut w = create_world();
    let mut p = Player::new(String::from("Hero"));
    assert_eq!(step(&mut w, &mut p, Direction::North), StepResult::Moved);
    let r = step(&mut w, &mut p, Direction::West);
    assert_eq!(r, StepResult::CombatRetreat);
    assert_eq!(p.location_id, FALLBACK_ROOM);
    assert_eq!(p.health, 85);
    assert!(w[FINAL_ROOM].monster_present);
    assert_eq!(p.attack_power, 10);
}

#[test]
fn retreat_can_drop_health_to_zero() {
    let mut w = create_world();
    let mut p = Player::new(String::from("Hero"));
    p.health = 15;
    assert_eq!(step(&mut w, &mut p, Direction::North), StepResult::Moved);
    assert_eq!(step(&mut w, &mut p, Direction::West), StepResult::CombatRetreat);
    assert_eq!(p.health, 0);
    assert!(!p.is_alive());
}

#[test]
fn cleared_final_location_is_entered_without_combat() {
    let mut w = create_world();
    let mut p = Player::new(String::from("Hero"));
    w[FINAL_ROOM].monster_present = false;
    p.move_to(FALLBACK_ROOM);
    let r = step(&mut w, &mut p, Direction::West);
    assert_eq!(r, StepResult::Moved);
    assert_eq!(p.location_id, FINAL_ROOM);
    assert_eq!(p.health, 100);
}
