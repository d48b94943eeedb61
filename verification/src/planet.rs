//! Cells of the grid, the planets placed on them, and what a click does.

use vstd::prelude::*;
use std::cmp::Ordering;

verus! {

/// A cell of the grid. The grid has no bounds; what a pair of indices means
/// on the plane depends on the tiling in use.
#[derive(Clone, Copy, Debug, Default, PartialEq, Eq, Ord, Structural)]
pub struct Location {
    pub x: i32,
    pub y: i32,
}

impl PartialOrd for Location {
    /// Cells are ordered by column, and within a column by row.
    fn partial_cmp(&self, other: &Location) -> (order: Option<Ordering>) {
        if self.x < other.x {
            Some(Ordering::Less)
        } else if self.x > other.x {
            Some(Ordering::Greater)
        } else if self.y < other.y {
            Some(Ordering::Less)
        } else if self.y > other.y {
            Some(Ordering::Greater)
        } else {
            Some(Ordering::Equal)
        }
    }
}

impl vstd::std_specs::cmp::PartialOrdSpecImpl for Location {
    open spec fn obeys_partial_cmp_spec() -> bool {
        true
    }

    open spec fn partial_cmp_spec(&self, other: &Location) -> Option<Ordering> {
        if self.x < other.x {
            Some(Ordering::Less)
        } else if self.x > other.x {
            Some(Ordering::Greater)
        } else if self.y < other.y {
            Some(Ordering::Less)
        } else if self.y > other.y {
            Some(Ordering::Greater)
        } else {
            Some(Ordering::Equal)
        }
    }
}

/// A player, by number.
#[derive(Clone, Copy, Debug, PartialEq, Eq, PartialOrd, Ord, Structural)]
pub struct Player(pub usize);

/// What is known of a planet besides its place.
#[derive(Clone, Debug)]
pub struct PlanetData {
    pub player: Player,
    pub name: String,
    pub ship_count: usize,
}

/// A planet on the map, as a click sees it: its identity, its cell and
/// whether it is selected.
#[derive(Clone, Copy, Debug, PartialEq, Eq, Structural)]
pub struct PlacedPlanet {
    pub id: u64,
    pub location: Location,
    pub selected: bool,
}

/// A change to the planets of the map.
#[derive(Clone, Debug)]
pub enum PlanetEvent {
    Create { loc: Location, player: Player },
    CreateNamed { loc: Location, data: PlanetData },
    Delete { id: u64 },
    SetPlayer { id: u64, player: Player },
    SetName { id: u64, name: String },
    SetShipCount { id: u64, amount: usize },
    SetSelected { id: u64, selected: bool },
}

/// The ships of a planet that has just been created.
pub const STARTING_SHIPS: usize = 10;

/// The words in a generated name.
pub const NAME_WORDS: u8 = 2;

#[verifier::external_type_specification]
#[verifier::external_body]
pub struct ExPetnames<'a>(petname::Petnames<'a>);

#[verifier::external_type_specification]
#[verifier::external_body]
pub struct ExStdRng(rand::rngs::StdRng);

/// Calls `petname::Petnames::generate`, which draws up to `words` words
/// from the lists with the generator and joins them with `separator`.
/// Which words come out depends on the state of the generator, so nothing
/// is claimed of the name.
#[verifier::external_body]
fn generate_name(
    names: &petname::Petnames<'static>,
    rng: &mut rand::rngs::StdRng,
    words: u8,
    separator: &str,
) -> (name: String) {
    names.generate(rng, words, separator)
}

/// Whether a planet of `planets` before the index `end` stands on `loc`.
pub open spec fn occupied_before(planets: Seq<PlacedPlanet>, end: int, loc: Location) -> bool {
    exists|j: int| 0 <= j < end && #[trigger] planets[j].location == loc
}

/// The events that delete every planet of `planets` on `loc`, in the
/// order of the planets.
pub open spec fn deletions(planets: Seq<PlacedPlanet>, loc: Location) -> Seq<PlanetEvent>
    decreases planets.len(),
{
    if planets.len() == 0 {
        Seq::empty()
    } else {
        let before = deletions(planets.drop_last(), loc);
        if planets.last().location == loc {
            before.push(PlanetEvent::Delete { id: planets.last().id })
        } else {
            before
        }
    }
}

/// Whether `event` is what a left click on `loc` does: it toggles the
/// selection of the first planet on the cell, or creates a planet for
/// `player` where the cell is free.
pub open spec fn is_left_click(
    event: PlanetEvent,
    planets: Seq<PlacedPlanet>,
    loc: Location,
    player: Player,
) -> bool {
    if occupied_before(planets, planets.len() as int, loc) {
        exists|i: int|
            0 <= i < planets.len() && #[trigger] planets[i].location == loc && !occupied_before(
                planets,
                i,
                loc,
            ) && event == (PlanetEvent::SetSelected {
                id: planets[i].id,
                selected: !planets[i].selected,
            })
    } else {
        event == (PlanetEvent::Create { loc, player })
    }
}

impl PlanetData {
    /// The data of a planet that has just been created for `player` under
    /// the name `name`: it has the starting ships.
    pub fn new(player: Player, name: String) -> (data: PlanetData)
        ensures
            data == (PlanetData { player, name, ship_count: STARTING_SHIPS }),
    {
        PlanetData { player, name, ship_count: STARTING_SHIPS }
    }
}

/// The data of a planet created for `player`, with a generated name of two
/// words and the starting ships.
pub fn new_planet(
    player: Player,
    names: &petname::Petnames<'static>,
    rng: &mut rand::rngs::StdRng,
) -> (data: PlanetData)
    ensures
        data.player == player,
        data.ship_count == STARTING_SHIPS,
{
    let name = generate_name(names, rng, NAME_WORDS, " ");
    PlanetData::new(player, name)
}

/// Decides what a left click on the cell `loc` does.
pub fn left_click(planets: &Vec<PlacedPlanet>, loc: Location, player: Player) -> (event:
    PlanetEvent)
    ensures
        is_left_click(event, planets@, loc, player),
{
    let mut i: usize = 0;
    while i < planets.len()
        invariant
            0 <= i <= planets.len(),
            !occupied_before(planets@, i as int, loc),
        decreases planets.len() - i,
    {
        let planet = planets[i];
        if planet.location == loc {
            return PlanetEvent::SetSelected { id: planet.id, selected: !planet.selected };
        }
        i += 1;
    }
    PlanetEvent::Create { loc, player }
}

/// Decides what a right click on the cell `loc` does: every planet on the
/// cell is deleted.
pub fn right_click(planets: &Vec<PlacedPlanet>, loc: Location) -> (events: Vec<PlanetEvent>)
    ensures
        events@ == deletions(planets@, loc),
{
    let mut events: Vec<PlanetEvent> = Vec::new();
    let mut i: usize = 0;
    while i < planets.len()
        invariant
            0 <= i <= planets.len(),
            events@ == deletions(planets@.take(i as int), loc),
        decreases planets.len() - i,
    {
        let planet = planets[i];
        proof {
            assert(planets@.take(i + 1).drop_last() == planets@.take(i as int));
        }
        if planet.location == loc {
            events.push(PlanetEvent::Delete { id: planet.id });
        }
        i += 1;
    }
    proof {
        assert(planets@.take(planets.len() as int) == planets@);
    }
    events
}

/// A right click deletes just the planets on the cell: as many events as
/// planets stand there, each for a planet of the cell.
pub proof fn lemma_deletions_are_of_the_cell(planets: Seq<PlacedPlanet>, loc: Location)
    ensures
        deletions(planets, loc).len() <= planets.len(),
        forall|k: int|
            0 <= k < deletions(planets, loc).len() ==> exists|j: int|
                0 <= j < planets.len() && planets[j].location == loc && #[trigger] deletions(
                    planets,
                    loc,
                )[k] == (PlanetEvent::Delete { id: planets[j].id }),
        forall|j: int|
            0 <= j < planets.len() && (#[trigger] planets[j]).location == loc ==> exists|k: int|
                0 <= k < deletions(planets, loc).len() && #[trigger] deletions(planets, loc)[k]
                    == (PlanetEvent::Delete { id: planets[j].id }),
    decreases planets.len(),
{
    if planets.len() > 0 {
        let shorter = planets.drop_last();
        lemma_deletions_are_of_the_cell(shorter, loc);
        let before = deletions(shorter, loc);
        let all = deletions(planets, loc);
        assert forall|k: int| 0 <= k < all.len() implies exists|j: int|
            0 <= j < planets.len() && planets[j].location == loc && #[trigger] all[k] == (
            PlanetEvent::Delete { id: planets[j].id }) by {
            if k < before.len() {
                let j = choose|j: int|
                    0 <= j < shorter.len() && shorter[j].location == loc && before[k] == (
                    PlanetEvent::Delete { id: shorter[j].id });
                assert(planets[j] == shorter[j]);
            } else {
                let j = planets.len() - 1;
                assert(planets[j].location == loc);
            }
        }
        assert forall|j: int|
            0 <= j < planets.len() && (#[trigger] planets[j]).location == loc implies exists|
            k: int,
        |
            0 <= k < all.len() && #[trigger] all[k] == (PlanetEvent::Delete {
                id: planets[j].id,
            }) by {
            if j < shorter.len() {
                assert(planets[j] == shorter[j]);
                let k = choose|k: int|
                    0 <= k < before.len() && #[trigger] before[k] == (PlanetEvent::Delete {
                        id: shorter[j].id,
                    });
                assert(all[k] == before[k]);
            } else {
                let k = all.len() - 1;
                assert(all[k] == (PlanetEvent::Delete { id: planets[j].id }));
            }
        }
    }
}

} // verus!
