//! The per-turn state transitions of the simulation: the start-of-turn
//! victory check and item pickup, and the dispatch of one interpreted
//! command into movement, combat, quitting or a rejected input. The
//! surrounding loop — rendering, reading input, stopping on a terminal
//! state — lives outside the library and only calls these functions.

use vstd::prelude::*;

use crate::combat::GUARDIAN_ATTACK;
use crate::combat::GUARDIAN_HEALTH;
use crate::combat::handle_battle;
use crate::command::Direction;
use crate::command::is_move;
use crate::player::Player;
use crate::player::PlayerModel;
use crate::player::saturating_sub;
use crate::world::FALLBACK_ROOM;
use crate::world::FINAL_ROOM;
use crate::world::ROOM_COUNT;
use crate::world::Room;
use crate::world::RoomModel;
use crate::world::adjacency;
use crate::world::wf_world;
use crate::world::world_view;

verus! {

/// What the start of a turn found: the game is already won, an item was
/// picked up, or there was nothing to pick up.
#[derive(Debug, PartialEq, Eq, Structural, Clone, Copy)]
pub enum TurnStart {
    Won,
    PickedItem,
    NoItem,
}

/// What dispatching one command did.
#[derive(Debug, PartialEq, Eq, Structural, Clone, Copy)]
pub enum StepResult {
    Quit,
    Invalid,
    Blocked,
    Moved,
    CombatVictory,
    CombatRetreat,
}

/// The full effect of the start of a turn on the abstract state.
pub struct TurnStartEffect {
    pub rooms: Seq<RoomModel>,
    pub player: PlayerModel,
    pub result: TurnStart,
}

/// The full effect of dispatching one command on the abstract state.
pub struct StepEffect {
    pub rooms: Seq<RoomModel>,
    pub player: PlayerModel,
    pub result: StepResult,
}

/// The winning position: standing in the final location after its guardian
/// has been cleared.
pub open spec fn won_position(w: Seq<RoomModel>, p: PlayerModel) -> bool {
    p.location_id == FINAL_ROOM && !w[FINAL_ROOM as int].monster_present
}

/// The start of a turn: if the player stands in the won position the game
/// ends; otherwise, if the current location holds items, exactly the first
/// one transfers to the player — atomically, leaving the rest in place.
pub open spec fn begin_turn_spec(w: Seq<RoomModel>, p: PlayerModel) -> TurnStartEffect {
    let loc = p.location_id as int;
    if won_position(w, p) {
        TurnStartEffect { rooms: w, player: p, result: TurnStart::Won }
    } else if w[loc].items.len() > 0 {
        TurnStartEffect {
            rooms: w.update(loc, RoomModel { items: w[loc].items.drop_first(), ..w[loc] }),
            player: PlayerModel {
                attack_power: (p.attack_power + w[loc].items[0].power_boost) as u32,
                inventory: p.inventory.push(w[loc].items[0]),
                ..p
            },
            result: TurnStart::PickedItem,
        }
    } else {
        TurnStartEffect { rooms: w, player: p, result: TurnStart::NoItem }
    }
}

/// The world after the guardian of the final location falls: only that flag
/// changes.
pub open spec fn guardian_cleared(w: Seq<RoomModel>) -> Seq<RoomModel> {
    w.update(
        FINAL_ROOM as int,
        RoomModel { monster_present: false, ..w[FINAL_ROOM as int] },
    )
}

/// Dispatch of one command. Quit and invalid input mutate nothing. A
/// movement is resolved through the adjacency table: an unwired direction
/// mutates nothing; a wired destination is entered directly unless it is the
/// final location with its guardian still present, in which case combat
/// resolves synchronously — victory clears the guardian and completes the
/// move, retreat costs the guardian's fixed attack in health and forces the
/// player to the fallback location.
pub open spec fn step_spec(w: Seq<RoomModel>, p: PlayerModel, c: Direction) -> StepEffect {
    if c == Direction::Quit {
        StepEffect { rooms: w, player: p, result: StepResult::Quit }
    } else if c == Direction::Invalid {
        StepEffect { rooms: w, player: p, result: StepResult::Invalid }
    } else {
        match adjacency(p.location_id as int, c) {
            None => StepEffect { rooms: w, player: p, result: StepResult::Blocked },
            Some(dest) => {
                if dest == FINAL_ROOM && w[FINAL_ROOM as int].monster_present {
                    if p.attack_power >= GUARDIAN_HEALTH {
                        StepEffect {
                            rooms: guardian_cleared(w),
                            player: PlayerModel { location_id: FINAL_ROOM, ..p },
                            result: StepResult::CombatVictory,
                        }
                    } else {
                        StepEffect {
                            rooms: w,
                            player: PlayerModel {
                                health: saturating_sub(p.health, GUARDIAN_ATTACK),
                                location_id: FALLBACK_ROOM,
                                ..p
                            },
                            result: StepResult::CombatRetreat,
                        }
                    }
                } else {
                    StepEffect {
                        rooms: w,
                        player: PlayerModel { location_id: dest, ..p },
                        result: StepResult::Moved,
                    }
                }
            },
        }
    }
}

/// Runs the start of a turn: reports a won game, or transfers the first item
/// of the player's current location to the player.
pub fn begin_turn(world: &mut Vec<Room>, player: &mut Player) -> (r: TurnStart)
    requires
        wf_world(world_view(old(world)@)),
        old(player).location_id < ROOM_COUNT,
        ({
            let w = world_view(old(world)@);
            let loc = old(player).location_id as int;
            w[loc].items.len() > 0 ==> old(player).attack_power + w[loc].items[0].power_boost
                <= u32::MAX
        }),
    ensures
        wf_world(world_view(final(world)@)),
        final(player).location_id == old(player).location_id,
        ({
            let e = begin_turn_spec(world_view(old(world)@), old(player)@);
            &&& r == e.result
            &&& world_view(final(world)@) == e.rooms
            &&& final(player)@ == e.player
        }),
{
    let ghost w0 = world_view(old(world)@);
    let loc = player.location_id;
    if loc == FINAL_ROOM && !world[FINAL_ROOM].monster_present {
        proof {
            assert(w0[FINAL_ROOM as int] == old(world)@[FINAL_ROOM as int]@);
        }
        return TurnStart::Won;
    }
    proof {
        assert(w0[loc as int] == old(world)@[loc as int]@);
    }
    if world[loc].items.len() > 0 {
        let item = world[loc].items.remove(0);
        player.pickup_item(item);
        proof {
            let e = begin_turn_spec(w0, old(player)@);
            assert(world_view(world@)[loc as int] == world@[loc as int]@);
            assert(world@[loc as int].items@ =~= w0[loc as int].items.drop_first());
            assert forall|i: int| 0 <= i < ROOM_COUNT && i != loc implies world_view(world@)[i]
                == e.rooms[i] by {
                assert(world_view(world@)[i] == world@[i]@);
            }
            assert(world_view(world@)[loc as int] =~= e.rooms[loc as int]);
            assert(world_view(world@) =~= e.rooms);
            assert(player@ =~= e.player);
        }
        TurnStart::PickedItem
    } else {
        TurnStart::NoItem
    }
}

/// Dispatches one interpreted command against the world and the player, per
/// `step_spec`. A move the adjacency table does not wire, and invalid input,
/// leave the whole state untouched; quit halts with no further mutation.
pub fn step(world: &mut Vec<Room>, player: &mut Player, command: Direction) -> (r: StepResult)
    requires
        wf_world(world_view(old(world)@)),
        old(player).location_id < ROOM_COUNT,
    ensures
        wf_world(world_view(final(world)@)),
        final(player).location_id < ROOM_COUNT,
        ({
            let e = step_spec(world_view(old(world)@), old(player)@, command);
            &&& r == e.result
            &&& world_view(final(world)@) == e.rooms
            &&& final(player)@ == e.player
        }),
        command == Direction::Quit ==> r == StepResult::Quit && *final(world) == *old(world)
            && *final(player) == *old(player),
        is_move(command) && adjacency(old(player).location_id as int, command) is None ==> r
            == StepResult::Blocked && *final(world) == *old(world) && *final(player) == *old(
            player,
        ),
{
    let ghost w0 = world_view(old(world)@);
    match command {
        Direction::Quit => StepResult::Quit,
        Direction::Invalid => StepResult::Invalid,
        Direction::North | Direction::South | Direction::East | Direction::West => {
            let loc = player.location_id;
            proof {
                assert(w0[loc as int] == old(world)@[loc as int]@);
                assert(w0[FINAL_ROOM as int] == old(world)@[FINAL_ROOM as int]@);
            }
            match world[loc].get_next_room_id(&command) {
                None => StepResult::Blocked,
                Some(next_room_id) => {
                    if next_room_id == FINAL_ROOM && world[FINAL_ROOM].monster_present {
                        if handle_battle(player) {
                            player.move_to(next_room_id);
                            world[FINAL_ROOM].monster_present = false;
                            proof {
                                let e = step_spec(w0, old(player)@, command);
                                assert forall|i: int|
                                    0 <= i < ROOM_COUNT && i != FINAL_ROOM implies world_view(world@)[i]
                                    == e.rooms[i] by {
                                    assert(world_view(world@)[i] == world@[i]@);
                                }
                                assert(world_view(world@)[FINAL_ROOM as int] == world@[FINAL_ROOM
                                    as int]@);
                                assert(world_view(world@)[FINAL_ROOM as int] =~= e.rooms[FINAL_ROOM
                                    as int]);
                                assert(world_view(world@) =~= e.rooms);
                                assert(player@ =~= e.player);
                            }
                            StepResult::CombatVictory
                        } else {
                            proof {
                                let e = step_spec(w0, old(player)@, command);
                                assert(player@ =~= e.player);
                            }
                            StepResult::CombatRetreat
                        }
                    } else {
                        player.move_to(next_room_id);
                        proof {
                            let e = step_spec(w0, old(player)@, command);
                            assert(player@ =~= e.player);
                        }
                        StepResult::Moved
                    }
                },
            }
        },
    }
}

/// A movement in a direction the adjacency table leaves absent changes
/// neither the world nor the player — location and health included — and
/// only reports that the way is blocked.
pub proof fn lemma_blocked_move_no_mutation(w: Seq<RoomModel>, p: PlayerModel, c: Direction)
    requires
        is_move(c),
        adjacency(p.location_id as int, c) is None,
    ensures
        step_spec(w, p, c).result == StepResult::Blocked,
        step_spec(w, p, c).rooms == w,
        step_spec(w, p, c).player == p,
{
}

/// The quit intent halts the turn from any state with no mutation at all.
pub proof fn lemma_quit_no_mutation(w: Seq<RoomModel>, p: PlayerModel)
    ensures
        step_spec(w, p, Direction::Quit).result == StepResult::Quit,
        step_spec(w, p, Direction::Quit).rooms == w,
        step_spec(w, p, Direction::Quit).player == p,
{
}

/// Item pickup is idempotent per instance: once a location's item sequence
/// is drained, starting a turn there picks nothing up and mutates nothing.
pub proof fn lemma_pickup_idempotent(w: Seq<RoomModel>, p: PlayerModel)
    requires
        wf_world(w),
        p.location_id < ROOM_COUNT,
        w[p.location_id as int].items.len() == 0,
    ensures
        begin_turn_spec(w, p).result != TurnStart::PickedItem,
        begin_turn_spec(w, p).rooms == w,
        begin_turn_spec(w, p).player == p,
{
}

/// Picking up a location's only item drains it, and a second turn at the
/// same location cannot yield that instance again.
pub proof fn lemma_pickup_drains(w: Seq<RoomModel>, p: PlayerModel)
    requires
        wf_world(w),
        p.location_id < ROOM_COUNT,
        !won_position(w, p),
        w[p.location_id as int].items.len() == 1,
    ensures
        begin_turn_spec(w, p).result == TurnStart::PickedItem,
        begin_turn_spec(w, p).rooms[p.location_id as int].items.len() == 0,
        begin_turn_spec(
            begin_turn_spec(w, p).rooms,
            begin_turn_spec(w, p).player,
        ).result != TurnStart::PickedItem,
{
    let e = begin_turn_spec(w, p);
    assert(e.rooms[p.location_id as int].items.len() == 0);
    assert(!won_position(e.rooms, e.player));
}

/// Entering the guarded final location with strength at or above the
/// guardian's health clears the guardian, relocates the player there
/// unharmed, and the next turn's start is the won terminal state.
pub proof fn lemma_victory_next_turn(w: Seq<RoomModel>, p: PlayerModel, c: Direction)
    requires
        wf_world(w),
        p.location_id < ROOM_COUNT,
        is_move(c),
        adjacency(p.location_id as int, c) == Some(FINAL_ROOM),
        w[FINAL_ROOM as int].monster_present,
        p.attack_power >= GUARDIAN_HEALTH,
    ensures
        step_spec(w, p, c).result == StepResult::CombatVictory,
        !step_spec(w, p, c).rooms[FINAL_ROOM as int].monster_present,
        step_spec(w, p, c).player.location_id == FINAL_ROOM,
        step_spec(w, p, c).player.health == p.health,
        begin_turn_spec(step_spec(w, p, c).rooms, step_spec(w, p, c).player).result
            == TurnStart::Won,
{
}

/// Entering the guarded final location with strength below the guardian's
/// health costs exactly the guardian's fixed attack in health (saturating at
/// zero), forces the player back to the fallback location, and leaves the
/// guardian in place; nothing else changes.
pub proof fn lemma_retreat_on_weak_attack(w: Seq<RoomModel>, p: PlayerModel, c: Direction)
    requires
        wf_world(w),
        p.location_id < ROOM_COUNT,
        is_move(c),
        adjacency(p.location_id as int, c) == Some(FINAL_ROOM),
        w[FINAL_ROOM as int].monster_present,
        p.attack_power < GUARDIAN_HEALTH,
    ensures
        step_spec(w, p, c).result == StepResult::CombatRetreat,
        step_spec(w, p, c).rooms == w,
        step_spec(w, p, c).rooms[FINAL_ROOM as int].monster_present,
        step_spec(w, p, c).player.health == saturating_sub(p.health, GUARDIAN_ATTACK),
        step_spec(w, p, c).player.location_id == FALLBACK_ROOM,
        step_spec(w, p, c).player.attack_power == p.attack_power,
        step_spec(w, p, c).player.inventory == p.inventory,
{
}

} // verus!
