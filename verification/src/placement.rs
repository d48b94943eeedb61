//! Where a tile and its label are drawn: the placement of a cell under
//! each tiling.

use vstd::prelude::*;
use crate::hexagon::{hexagon_center, HEX_HALF_PITCH, HEX_PITCH, HEX_ROW_HEIGHT};
use crate::planet::Location;
use crate::square::square_center;
use crate::triangle::{triangle_center, TRIANGLE_HEIGHT};
use crate::units::{HALF_UNIT, UNIT};

verus! {

/// The shape of the tiles.
#[derive(Clone, Copy, Debug, PartialEq, Eq, PartialOrd, Ord, Structural)]
pub enum MapType {
    Squares,
    Triangles,
    Hexagons,
}

impl MapType {
    /// The name under which a tiling is stored.
    pub open spec fn tag(self) -> Seq<char> {
        match self {
            MapType::Squares => "Squares"@,
            MapType::Triangles => "Triangles"@,
            MapType::Hexagons => "Hexagons"@,
        }
    }

    /// The name under which this tiling is stored.
    pub fn name(&self) -> (name: &'static str)
        ensures
            name@ == self.tag(),
    {
        match self {
            MapType::Squares => "Squares",
            MapType::Triangles => "Triangles",
            MapType::Hexagons => "Hexagons",
        }
    }

    /// Finds the tiling stored under a name. Only the three names of
    /// `name` stand for a tiling.
    pub fn from_name(name: &str) -> (ty: Option<MapType>)
        ensures
            match ty {
                Some(found) => name@ == found.tag(),
                None => forall|other: MapType| name@ != other.tag(),
            },
    {
        let given: String = name.to_owned();
        if given == "Squares".to_owned() {
            Some(MapType::Squares)
        } else if given == "Triangles".to_owned() {
            Some(MapType::Triangles)
        } else if given == "Hexagons".to_owned() {
            Some(MapType::Hexagons)
        } else {
            None
        }
    }
}

/// No two tilings are stored under one name, so a stored name gives back
/// the tiling that wrote it.
pub proof fn lemma_names_tell_tilings_apart(a: MapType, b: MapType)
    requires
        a.tag() == b.tag(),
    ensures
        a == b,
{
    reveal_strlit("Squares");
    reveal_strlit("Triangles");
    reveal_strlit("Hexagons");
    assert("Squares"@.len() == 7);
    assert("Triangles"@.len() == 9);
    assert("Hexagons"@.len() == 8);
}

/// Position, rotation and scale of something drawn on a cell. Lengths are
/// in ticks, the rotation is counter-clockwise in degrees, and `scale` is
/// `UNIT` for natural size.
#[derive(Clone, Copy, Debug, PartialEq, Eq, Structural)]
pub struct PlacementTransform {
    pub x: i64,
    pub y: i64,
    pub z: i64,
    pub rotation_degrees: u16,
    pub scale: i64,
}

/// The layer on which labels are drawn over squares and hexagons.
pub const LABEL_LAYER: i64 = 15_000_000;

/// How far below the centre of a square or a triangle its label stands.
pub const LABEL_DROP: i64 = 6_000_000;

/// How far below the centre of a hexagon its label stands.
pub const HEX_LABEL_DROP: i64 = 11_000_000;

/// The scale of a label: a hundredth of natural size.
pub const LABEL_SCALE: i64 = 100_000;

/// The rotation that turns the hexagon mesh, drawn with a corner on top,
/// so that its flat edges lie on the lattice.
pub const HEX_TURN: u16 = 30;

/// The rotation of a triangle that points down.
pub const HALF_TURN: u16 = 180;

/// The centre of the tile of `cell`.
pub open spec fn cell_center(cell: Location, ty: MapType) -> (int, int) {
    match ty {
        MapType::Squares => square_center(cell),
        MapType::Triangles => triangle_center(cell),
        MapType::Hexagons => hexagon_center(cell),
    }
}

/// By how many degrees the tile of `cell` is turned.
pub open spec fn tile_rotation(cell: Location, ty: MapType) -> u16 {
    match ty {
        MapType::Squares => 0,
        MapType::Triangles => if cell.x as int % 2 != 0 {
            HALF_TURN
        } else {
            0
        },
        MapType::Hexagons => HEX_TURN,
    }
}

/// The placement of the tile of `cell` on the layer `z`.
pub open spec fn tile_placement(cell: Location, ty: MapType, z: i64) -> PlacementTransform {
    PlacementTransform {
        x: cell_center(cell, ty).0 as i64,
        y: cell_center(cell, ty).1 as i64,
        z,
        rotation_degrees: tile_rotation(cell, ty),
        scale: UNIT,
    }
}

/// How far below the centre of a tile its label stands.
pub open spec fn label_drop(ty: MapType) -> int {
    match ty {
        MapType::Hexagons => HEX_LABEL_DROP as int,
        _ => LABEL_DROP as int,
    }
}

/// The layer of a label. Over triangles it is the ground layer.
pub open spec fn label_layer(ty: MapType) -> i64 {
    match ty {
        MapType::Triangles => 0,
        _ => LABEL_LAYER,
    }
}

/// The placement of the label of `cell`: below the centre of the tile,
/// upright and small.
pub open spec fn label_placement(cell: Location, ty: MapType) -> PlacementTransform {
    PlacementTransform {
        x: cell_center(cell, ty).0 as i64,
        y: (cell_center(cell, ty).1 - label_drop(ty)) as i64,
        z: label_layer(ty),
        rotation_degrees: 0,
        scale: LABEL_SCALE,
    }
}

/// The centre of a cell is within reach of `i64` for every cell.
pub proof fn lemma_center_in_range(cell: Location, ty: MapType)
    ensures
        -100_000_000_000_000_000 < cell_center(cell, ty).0 < 100_000_000_000_000_000,
        -100_000_000_000_000_000 < cell_center(cell, ty).1 < 100_000_000_000_000_000,
{
}

fn is_odd(v: i32) -> (odd: bool)
    ensures
        odd == (v as int % 2 != 0),
{
    let half: i32 = v / 2;
    v - half != half
}

/// Computes the centre of the tile of `cell`.
pub fn center_of(cell: Location, ty: MapType) -> (center: (i64, i64))
    ensures
        center.0 == cell_center(cell, ty).0,
        center.1 == cell_center(cell, ty).1,
{
    let col: i64 = cell.x as i64;
    let row: i64 = cell.y as i64;
    match ty {
        MapType::Squares => (col * UNIT, row * UNIT),
        MapType::Triangles => {
            let shift: i64 = if is_odd(cell.y) {
                0
            } else {
                -1
            };
            ((col + shift) * HALF_UNIT, row * TRIANGLE_HEIGHT)
        },
        MapType::Hexagons => {
            let shift: i64 = if is_odd(cell.y) {
                HEX_HALF_PITCH
            } else {
                0
            };
            (col * HEX_PITCH + shift, row * HEX_ROW_HEIGHT)
        },
    }
}

/// Computes where the tile of `cell` is drawn. The layer `z` only orders
/// what is drawn and is handed through.
pub fn placement_transform(cell: Location, ty: MapType, z: i64) -> (placed: PlacementTransform)
    ensures
        placed == tile_placement(cell, ty, z),
{
    proof {
        lemma_center_in_range(cell, ty);
    }
    let center = center_of(cell, ty);
    let turn: u16 = match ty {
        MapType::Squares => 0,
        MapType::Triangles => if is_odd(cell.x) {
            HALF_TURN
        } else {
            0
        },
        MapType::Hexagons => HEX_TURN,
    };
    PlacementTransform { x: center.0, y: center.1, z, rotation_degrees: turn, scale: UNIT }
}

/// Computes where the label of `cell` is drawn.
pub fn label_transform(cell: Location, ty: MapType) -> (placed: PlacementTransform)
    ensures
        placed == label_placement(cell, ty),
{
    proof {
        lemma_center_in_range(cell, ty);
    }
    let center = center_of(cell, ty);
    match ty {
        MapType::Squares => PlacementTransform {
            x: center.0,
            y: center.1 - LABEL_DROP,
            z: LABEL_LAYER,
            rotation_degrees: 0,
            scale: LABEL_SCALE,
        },
        MapType::Triangles => PlacementTransform {
            x: center.0,
            y: center.1 - LABEL_DROP,
            z: 0,
            rotation_degrees: 0,
            scale: LABEL_SCALE,
        },
        MapType::Hexagons => PlacementTransform {
            x: center.0,
            y: center.1 - HEX_LABEL_DROP,
            z: LABEL_LAYER,
            rotation_degrees: 0,
            scale: LABEL_SCALE,
        },
    }
}

} // verus!
