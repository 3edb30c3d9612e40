//! The world graph: a fixed set of four locations with directional
//! connectivity, collectible items and a guardian-presence flag, plus the
//! pure adjacency lookup that movement is resolved through.

use vstd::prelude::*;

use crate::command::Direction;

verus! {

/// Identity of the location the player starts in.
pub const START_ROOM: usize = 0;

/// Identity of the location a retreating player is forced back to; it is the
/// one directly preceding the guarded final location.
pub const FALLBACK_ROOM: usize = 1;

/// Identity of the side vault holding the strongest item.
pub const VAULT_ROOM: usize = 2;

/// Identity of the guarded final location; standing here with the guardian
/// gone wins the game.
pub const FINAL_ROOM: usize = 3;

/// Number of locations in the fixed world.
pub const ROOM_COUNT: usize = 4;

pub struct Item {
    pub name: String,
    pub description: String,
    pub power_boost: u32,
}

pub struct Room {
    pub id: usize,
    pub name: String,
    pub description: String,
    pub exits: Vec<Direction>,
    pub items: Vec<Item>,
    pub monster_present: bool,
}

/// The mathematical model of a room: the same fields with the collections
/// abstracted to sequences, so that specifications can describe how a turn
/// rewrites them.
#[verifier::ext_equal]
pub struct RoomModel {
    pub id: usize,
    pub name: String,
    pub description: String,
    pub exits: Seq<Direction>,
    pub items: Seq<Item>,
    pub monster_present: bool,
}

impl View for Room {
    type V = RoomModel;

    open spec fn view(&self) -> RoomModel {
        RoomModel {
            id: self.id,
            name: self.name,
            description: self.description,
            exits: self.exits@,
            items: self.items@,
            monster_present: self.monster_present,
        }
    }
}

/// The model of a whole world: each room abstracted to its model.
pub open spec fn world_view(w: Seq<Room>) -> Seq<RoomModel> {
    w.map_values(|r: Room| r@)
}

/// The fixed topology: which location, if any, lies in direction `d` from the
/// location with identity `id`. Directions not wired for a location are
/// absent, which signals "cannot move that way" rather than an error. The
/// asymmetries (the vault and the final location each have a one-way return)
/// are intentional.
pub open spec fn adjacency(id: int, d: Direction) -> Option<usize> {
    match d {
        Direction::North => if id == 0 {
            Some(1usize)
        } else {
            None
        },
        Direction::South => if id == 1 {
            Some(0usize)
        } else {
            None
        },
        Direction::East => if id == 0 {
            Some(2usize)
        } else if id == 3 {
            Some(1usize)
        } else {
            None
        },
        Direction::West => if id == 1 {
            Some(3usize)
        } else if id == 2 {
            Some(0usize)
        } else {
            None
        },
        Direction::Quit => None,
        Direction::Invalid => None,
    }
}

/// Every destination the adjacency table yields is a real location.
pub proof fn lemma_adjacency_in_range(id: int, d: Direction)
    ensures
        adjacency(id, d) matches Some(dest) ==> dest < ROOM_COUNT,
{
}

/// Well-formedness of a room standing at index `i` of the world: its identity
/// matches its index and each listed exit actually resolves through the
/// adjacency table.
pub open spec fn wf_room(r: RoomModel, i: int) -> bool {
    &&& r.id == i
    &&& forall|j: int| 0 <= j < r.exits.len() ==> (#[trigger] adjacency(
        i,
        r.exits[j],
    )) is Some
}

/// Well-formedness of the world: exactly the fixed set of locations, each
/// well-formed at its index.
pub open spec fn wf_world(w: Seq<RoomModel>) -> bool {
    &&& w.len() == ROOM_COUNT
    &&& forall|i: int| 0 <= i < w.len() ==> wf_room(#[trigger] w[i], i)
}

impl Room {
    /// Pure directional adjacency lookup: no side effects, no mutation.
    pub fn get_next_room_id(&self, direction: &Direction) -> (r: Option<usize>)
        ensures
            r == adjacency(self.id as int, *direction),
    {
        match (self.id, direction) {
            (0, Direction::North) => Some(1),
            (0, Direction::East) => Some(2),
            (1, Direction::South) => Some(0),
            (1, Direction::West) => Some(3),
            (2, Direction::West) => Some(0),
            (3, Direction::East) => Some(1),
            _ => None,
        }
    }
}

/// Builds the fixed four-location world: a start chamber with a worthless
/// torch, a corridor, a vault with the strongest item, and the guarded final
/// location.
pub fn create_world() -> (w: Vec<Room>)
    ensures
        wf_world(world_view(w@)),
        ({
            let v = world_view(w@);
            &&& v.len() == ROOM_COUNT
            &&& v[0].id == 0
            &&& v[0].name@ == "Starting Chamber"@
            &&& v[0].description@ == "A dusty, circular room. There is a chill in the air."@
            &&& v[0].exits == seq![Direction::North, Direction::East]
            &&& v[0].items.len() == 1
            &&& v[0].items[0].name@ == "Old Torch"@
            &&& v[0].items[0].description@ == "It flickers dimly."@
            &&& v[0].items[0].power_boost == 0
            &&& !v[0].monster_present
            &&& v[1].id == 1
            &&& v[1].name@ == "Dark Corridor"@
            &&& v[1].description@
                == "The walls are lined with strange runes. You hear dripping water."@
            &&& v[1].exits == seq![Direction::South, Direction::West]
            &&& v[1].items.len() == 0
            &&& !v[1].monster_present
            &&& v[2].id == 2
            &&& v[2].name@ == "Treasure Vault"@
            &&& v[2].description@
                == "A small room filled with glittering dust and a single glowing sword."@
            &&& v[2].exits == seq![Direction::West]
            &&& v[2].items.len() == 1
            &&& v[2].items[0].name@ == "Sword of Glory"@
            &&& v[2].items[0].description@ == "Gives a massive boost."@
            &&& v[2].items[0].power_boost == 50
            &&& !v[2].monster_present
            &&& v[3].id == 3
            &&& v[3].name@ == "Ancient Altar"@
            &&& v[3].description@
                == "A massive chamber dominated by an altar. A fearsome monster blocks the exit!"@
            &&& v[3].exits == seq![Direction::East]
            &&& v[3].items.len() == 0
            &&& v[3].monster_present
        }),
{
    let room0 = Room {
        id: 0,
        name: "Starting Chamber".to_owned(),
        description: "A dusty, circular room. There is a chill in the air.".to_owned(),
        exits: vec![Direction::North, Direction::East],
        items: vec![
            Item {
                name: "Old Torch".to_owned(),
                description: "It flickers dimly.".to_owned(),
                power_boost: 0,
            },
        ],
        monster_present: false,
    };
    let room1 = Room {
        id: 1,
        name: "Dark Corridor".to_owned(),
        description: "The walls are lined with strange runes. You hear dripping water.".to_owned(),
        exits: vec![Direction::South, Direction::West],
        items: Vec::new(),
        monster_present: false,
    };
    let room2 = Room {
        id: 2,
        name: "Treasure Vault".to_owned(),
        description: "A small room filled with glittering dust and a single glowing sword."
            .to_owned(),
        exits: vec![Direction::West],
        items: vec![
            Item {
                name: "Sword of Glory".to_owned(),
                description: "Gives a massive boost.".to_owned(),
                power_boost: 50,
            },
        ],
        monster_present: false,
    };
    let room3 = Room {
        id: 3,
        name: "Ancient Altar".to_owned(),
        description: "A massive chamber dominated by an altar. A fearsome monster blocks the exit!"
            .to_owned(),
        exits: vec![Direction::East],
        items: Vec::new(),
        monster_present: true,
    };
    let w = vec![room0, room1, room2, room3];
    proof {
        assert(world_view(w@)[0] == w@[0]@);
        assert(world_view(w@)[1] == w@[1]@);
        assert(world_view(w@)[2] == w@[2]@);
        assert(world_view(w@)[3] == w@[3]@);
        assert(w@[0].exits@ =~= seq![Direction::North, Direction::East]);
        assert(w@[1].exits@ =~= seq![Direction::South, Direction::West]);
        assert(w@[2].exits@ =~= seq![Direction::West]);
        assert(w@[3].exits@ =~= seq![Direction::East]);
        assert forall|i: int| 0 <= i < world_view(w@).len() implies wf_room(
            #[trigger] world_view(w@)[i],
            i,
        ) by {
            assert(world_view(w@)[i] == w@[i]@);
        }
        assert(wf_world(world_view(w@)));
    }
    w
}

} // verus!
