//! The triangle tiling: rows of equilateral triangles of edge one unit,
//! which point up and down in turn along a row.

use vstd::prelude::*;
use crate::planet::Location;
use crate::units::{floor_div, is_even, saturate_i32, saturated_i32, HALF_UNIT, UNIT};

verus! {

/// Height of a triangle of edge one unit, in ticks.
pub const TRIANGLE_HEIGHT: i64 = 8_660_254;

/// Half that height: a tile's centre lies this far above its base line.
pub const HALF_TRIANGLE_HEIGHT: i64 = 4_330_127;

/// How fast a triangle narrows with height: twice the tangent of thirty
/// degrees, in ticks per unit.
pub const TRIANGLE_SLOPE: i64 = 11_547_005;

/// The square of `UNIT`: the scale of a product of two lengths.
pub const UNIT_SQUARED: i64 = 100_000_000_000_000;

/// The row whose band holds the height `y`. The band of a row is the span
/// of heights of its tiles: it lies around the centres of the row and
/// reaches half a height below and above them.
pub open spec fn triangle_row(y: int) -> int {
    (y + HALF_TRIANGLE_HEIGHT) / (TRIANGLE_HEIGHT as int)
}

/// How far `y` lies above the base line of its row.
pub open spec fn triangle_rise(y: int) -> int {
    (y + HALF_TRIANGLE_HEIGHT) % (TRIANGLE_HEIGHT as int)
}

/// By how many half units the columns of a row are shifted: even rows
/// stand half a unit to the left of odd rows.
pub open spec fn row_shift(row: int) -> int {
    if row % 2 == 0 {
        -1
    } else {
        0
    }
}

/// The horizontal position in half units, counted so that the tile of
/// column `c` is centred on `c + 1` in every row.
pub open spec fn triangle_doubled_x(x: int, y: int) -> int {
    2 * x + UNIT - row_shift(triangle_row(y)) * UNIT
}

/// By how much each slanted edge has moved inward at the height `rise`
/// above the base line, in half units scaled by `UNIT`.
pub open spec fn triangle_inset(rise: int) -> int {
    TRIANGLE_SLOPE * rise
}

/// The column of the tile that holds the point `(x, y)`.
pub open spec fn triangle_column(x: int, y: int) -> int {
    let doubled = triangle_doubled_x(x, y);
    let col = doubled / (UNIT as int);
    let part = doubled % (UNIT as int);
    let inset = triangle_inset(triangle_rise(y));
    let threshold = if col % 2 == 0 {
        inset
    } else {
        UNIT_SQUARED - inset
    };
    if part * UNIT < threshold {
        col - 1
    } else {
        col
    }
}

/// The triangle cell under the point `(x, y)`.
pub open spec fn triangle_cell(x: int, y: int) -> Location {
    Location { x: saturated_i32(triangle_column(x, y)), y: saturated_i32(triangle_row(y)) }
}

/// The centre of a triangle cell: the middle of its base, raised by half
/// the height.
pub open spec fn triangle_center(cell: Location) -> (int, int) {
    ((cell.x + row_shift(cell.y as int)) * HALF_UNIT, cell.y * TRIANGLE_HEIGHT)
}

/// Whether a tile points down. Tiles of odd columns do.
pub open spec fn points_down(col: int) -> bool {
    col % 2 != 0
}

/// Whether the point `(x, y)` lies in the tile of `(col, row)`: within the
/// band of the row, and between the two slanted edges, the left one
/// counted in and the right one out. A tile that points up is one unit
/// wide at its base and narrows with height; one that points down widens.
pub open spec fn triangle_contains(col: int, row: int, x: int, y: int) -> bool {
    let rise = y - (row * TRIANGLE_HEIGHT - HALF_TRIANGLE_HEIGHT);
    let offset = 2 * x - (col + row_shift(row)) * UNIT;
    let inset = triangle_inset(rise);
    let half_width = if points_down(col) {
        inset
    } else {
        UNIT_SQUARED - inset
    };
    0 <= rise < TRIANGLE_HEIGHT && -half_width <= offset * UNIT < half_width
}

/// Finds the triangle cell under a point. An index beyond `i32` is clamped.
pub fn triangle_hit(x: i64, y: i64) -> (cell: Location)
    ensures
        cell == triangle_cell(x as int, y as int),
{
    let unit: i128 = UNIT as i128;
    let height: i128 = TRIANGLE_HEIGHT as i128;
    let lifted: i128 = y as i128 + HALF_TRIANGLE_HEIGHT as i128;
    let row: i128 = floor_div(lifted, height);
    let rise: i128 = lifted - row * height;
    assert(0 <= rise < TRIANGLE_HEIGHT && rise == triangle_rise(y as int));
    let shift: i128 = if is_even(row) {
        unit
    } else {
        0
    };
    let doubled: i128 = 2 * (x as i128) + unit + shift;
    let col: i128 = floor_div(doubled, unit);
    let part: i128 = doubled - col * unit;
    assert(0 <= part < UNIT);
    let slope: i128 = TRIANGLE_SLOPE as i128;
    assert(0 <= slope * rise < UNIT_SQUARED) by (nonlinear_arith)
        requires
            slope == 11_547_005,
            0 <= rise < 8_660_254,
            UNIT_SQUARED == 100_000_000_000_000,
    ;
    let inset: i128 = slope * rise;
    let threshold: i128 = if is_even(col) {
        inset
    } else {
        UNIT_SQUARED as i128 - inset
    };
    let found: i128 = if part * unit < threshold {
        col - 1
    } else {
        col
    };
    Location { x: saturate_i32(found), y: saturate_i32(row) }
}

/// The mesh of a triangle tile about its centre: the corners of the tile
/// that points up, counter-clockwise from the left end of the base, and for
/// each corner where it lies on a texture of one unit by one unit.
pub struct TriangleMesh {
    pub positions: [(i64, i64); 3],
    pub uvs: [(i64, i64); 3],
    pub indices: [u32; 3],
}

/// The corners of the tile that points up, about its centre.
pub open spec fn upright_corners() -> Seq<(int, int)> {
    seq![
        (-HALF_UNIT, -HALF_TRIANGLE_HEIGHT),
        (HALF_UNIT as int, -HALF_TRIANGLE_HEIGHT),
        (0int, HALF_TRIANGLE_HEIGHT as int),
    ]
}

/// Where the corners lie on the texture.
pub open spec fn corner_uvs() -> Seq<(int, int)> {
    seq![(0int, 0int), (UNIT as int, 0int), (HALF_UNIT as int, TRIANGLE_HEIGHT as int)]
}

/// Lays out the mesh of a triangle tile.
pub fn triangle_mesh() -> (mesh: TriangleMesh)
    ensures
        forall|k: int|
            0 <= k < 3 ==> (#[trigger] mesh.positions[k]).0 == upright_corners()[k].0
                && mesh.positions[k].1 == upright_corners()[k].1,
        forall|k: int|
            0 <= k < 3 ==> (#[trigger] mesh.uvs[k]).0 == corner_uvs()[k].0 && mesh.uvs[k].1
                == corner_uvs()[k].1,
        forall|k: int| 0 <= k < 3 ==> #[trigger] mesh.indices[k] == k,
{
    TriangleMesh {
        positions: [
            (-HALF_UNIT, -HALF_TRIANGLE_HEIGHT),
            (HALF_UNIT, -HALF_TRIANGLE_HEIGHT),
            (0, HALF_TRIANGLE_HEIGHT),
        ],
        uvs: [(0, 0), (UNIT, 0), (HALF_UNIT, TRIANGLE_HEIGHT)],
        indices: [0, 1, 2],
    }
}

/// The tiles cover the plane without gap or overlap: a point lies in the
/// tile of the cell found for it, and in no other tile.
pub proof fn lemma_triangle_exactly_one(col: int, row: int, x: int, y: int)
    ensures
        triangle_contains(col, row, x, y) <==> (col == triangle_column(x, y) && row
            == triangle_row(y)),
{
}

/// The centre of a triangle cell lies in that cell.
pub proof fn lemma_triangle_center_stable(cell: Location)
    ensures
        triangle_cell(triangle_center(cell).0, triangle_center(cell).1) == cell,
{
}

} // verus!
