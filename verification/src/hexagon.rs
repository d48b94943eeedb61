//! The hexagon tiling: flat-topped hexagons of edge one unit. Their centres
//! stand in rows; along a row they are three units apart, and every other
//! row is shifted by one and a half units.

use vstd::prelude::*;
use crate::planet::Location;
use crate::units::{distance, floor_div, is_even, saturate_i32, saturated_i32, UNIT};

verus! {

/// Vertical distance between two rows of centres, in ticks.
pub const HEX_ROW_HEIGHT: i64 = 8_660_000;

/// Horizontal distance between the centres of two hexagons that share a
/// slanted edge: one and a half units, in ticks.
pub const HEX_HALF_PITCH: i64 = 15_000_000;

/// Horizontal distance between two centres of one row, in ticks.
pub const HEX_PITCH: i64 = 30_000_000;

/// The centre of a hexagon cell.
pub open spec fn hexagon_center(cell: Location) -> (int, int) {
    (
        cell.x * HEX_PITCH + if cell.y as int % 2 != 0 {
            HEX_HALF_PITCH as int
        } else {
            0
        },
        cell.y * HEX_ROW_HEIGHT,
    )
}

/// The place of a centre on the lattice of all centres: its column counted
/// in steps of one and a half units, and its row. The two are both even or
/// both odd.
pub open spec fn hexagon_site(col: int, row: int) -> (int, int) {
    (
        2 * col + if row % 2 != 0 {
            1int
        } else {
            0
        },
        row,
    )
}

/// The lattice site whose hexagon holds the point `(x, y)`. The point lies
/// in a box of one and a half units by one row height, which has a centre
/// on two opposite corners; the edge that the two hexagons share runs
/// through the box from bottom to top and decides between them.
pub open spec fn hexagon_site_at(x: int, y: int) -> (int, int) {
    let a = x / (HEX_HALF_PITCH as int);
    let b = y / (HEX_ROW_HEIGHT as int);
    let along = x % (HEX_HALF_PITCH as int);
    let up = y % (HEX_ROW_HEIGHT as int);
    if (a + b) % 2 == 0 {
        if 2 * HEX_ROW_HEIGHT * along + UNIT * up < 2 * HEX_ROW_HEIGHT * UNIT {
            (a, b)
        } else {
            (a + 1, b + 1)
        }
    } else {
        if 2 * HEX_ROW_HEIGHT * along < HEX_ROW_HEIGHT * UNIT + UNIT * up {
            (a, b + 1)
        } else {
            (a + 1, b)
        }
    }
}

/// The column of the hexagon that holds the point `(x, y)`.
pub open spec fn hexagon_column(x: int, y: int) -> int {
    hexagon_site_at(x, y).0 / 2
}

/// The row of the hexagon that holds the point `(x, y)`.
pub open spec fn hexagon_row(x: int, y: int) -> int {
    hexagon_site_at(x, y).1
}

/// The hexagon cell under the point `(x, y)`.
pub open spec fn hexagon_cell(x: int, y: int) -> Location {
    Location { x: saturated_i32(hexagon_column(x, y)), y: saturated_i32(hexagon_row(x, y)) }
}

/// The distance that a hexagon at its centre reaches: every point on its
/// edges is this far from the centre in `hexagon_distance`.
pub const HEX_REACH: i64 = 173_200_000_000_000;

/// The hexagonal distance of the point `(x, y)` from the centre of
/// `(col, row)`: the measure in which the points at one distance from a
/// centre form a hexagon like the tiles. It is the greater of the distance
/// towards the flat edges and the distance towards the slanted edges, both
/// scaled so that the edges of the tile lie at `HEX_REACH`.
pub open spec fn hexagon_distance(col: int, row: int, x: int, y: int) -> int {
    let site = hexagon_site(col, row);
    let across = distance(x - site.0 * HEX_HALF_PITCH);
    let up = distance(y - site.1 * HEX_ROW_HEIGHT);
    let flat = 2 * UNIT * up;
    let slanted = 2 * HEX_ROW_HEIGHT * across + UNIT * up;
    if flat > slanted {
        flat
    } else {
        slanted
    }
}

/// Whether the point `(x, y)` lies in the hexagon of `(col, row)`, its
/// edges counted in.
pub open spec fn hexagon_covers(col: int, row: int, x: int, y: int) -> bool {
    hexagon_distance(col, row, x, y) <= HEX_REACH
}

/// Whether the point `(x, y)` lies in the hexagon of `(col, row)` and on
/// none of its edges.
pub open spec fn hexagon_encloses(col: int, row: int, x: int, y: int) -> bool {
    hexagon_distance(col, row, x, y) < HEX_REACH
}

/// Finds the hexagon cell under a point. An index beyond `i32` is clamped.
pub fn hexagon_hit(x: i64, y: i64) -> (cell: Location)
    ensures
        cell == hexagon_cell(x as int, y as int),
{
    let unit: i128 = UNIT as i128;
    let width: i128 = HEX_HALF_PITCH as i128;
    let height: i128 = HEX_ROW_HEIGHT as i128;
    let a: i128 = floor_div(x as i128, width);
    let b: i128 = floor_div(y as i128, height);
    let along: i128 = x as i128 - a * width;
    let up: i128 = y as i128 - b * height;
    assert(0 <= along < HEX_HALF_PITCH && 0 <= up < HEX_ROW_HEIGHT);
    assert(along == x as int % (HEX_HALF_PITCH as int) && up == y as int % (HEX_ROW_HEIGHT as int));
    let steep: i128 = 2 * height;
    assert(0 <= steep * along < 300_000_000_000_000 && 0 <= unit * up < 100_000_000_000_000
        && steep * unit == 173_200_000_000_000 && height * unit == 86_600_000_000_000)
        by (nonlinear_arith)
        requires
            steep == 17_320_000,
            height == 8_660_000,
            unit == 10_000_000,
            0 <= along < 15_000_000,
            0 <= up < 8_660_000,
    ;
    let site_col: i128;
    let site_row: i128;
    if is_even(a + b) {
        if steep * along + unit * up < steep * unit {
            site_col = a;
            site_row = b;
        } else {
            site_col = a + 1;
            site_row = b + 1;
        }
    } else {
        if steep * along < height * unit + unit * up {
            site_col = a;
            site_row = b + 1;
        } else {
            site_col = a + 1;
            site_row = b;
        }
    }
    Location { x: saturate_i32(floor_div(site_col, 2)), y: saturate_i32(site_row) }
}

/// The site found for a point is the site of the cell found for it.
pub proof fn lemma_hexagon_site_is_of_cell(x: int, y: int)
    ensures
        hexagon_site_at(x, y) == hexagon_site(hexagon_column(x, y), hexagon_row(x, y)),
{
}

/// The hexagons leave no gap: every point lies in the hexagon of the cell
/// found for it.
pub proof fn lemma_hexagon_covered(x: int, y: int)
    ensures
        hexagon_covers(hexagon_column(x, y), hexagon_row(x, y), x, y),
{
    lemma_hexagon_site_is_of_cell(x, y);
    let a = x / (HEX_HALF_PITCH as int);
    let b = y / (HEX_ROW_HEIGHT as int);
    let along = x % (HEX_HALF_PITCH as int);
    let up = y % (HEX_ROW_HEIGHT as int);
    let site = hexagon_site_at(x, y);
    let across = x - site.0 * HEX_HALF_PITCH;
    let above = y - site.1 * HEX_ROW_HEIGHT;
    assert(x == a * HEX_HALF_PITCH + along && y == b * HEX_ROW_HEIGHT + up);
    assert(across == along || across == along - HEX_HALF_PITCH);
    assert(above == up || above == up - HEX_ROW_HEIGHT);
    let rise = distance(above);
    assert(2 * UNIT * rise <= HEX_REACH) by (nonlinear_arith)
        requires
            0 <= rise <= 8_660_000,
            UNIT == 10_000_000,
            HEX_REACH == 173_200_000_000_000,
    ;
}

/// The hexagons do not overlap: a point inside a hexagon and on none of
/// its edges has the cell of that hexagon found for it.
pub proof fn lemma_hexagon_enclosing_is_found(col: int, row: int, x: int, y: int)
    requires
        hexagon_encloses(col, row, x, y),
    ensures
        col == hexagon_column(x, y),
        row == hexagon_row(x, y),
{
    lemma_hexagon_site_is_of_cell(x, y);
    lemma_hexagon_covered(x, y);
}

/// The cell found for a point is one whose centre is nearest to it in
/// hexagonal distance: no centre is nearer.
pub proof fn lemma_hexagon_found_is_nearest(col: int, row: int, x: int, y: int)
    ensures
        hexagon_distance(hexagon_column(x, y), hexagon_row(x, y), x, y) <= hexagon_distance(
            col,
            row,
            x,
            y,
        ),
{
    lemma_hexagon_covered(x, y);
    if hexagon_encloses(col, row, x, y) {
        lemma_hexagon_enclosing_is_found(col, row, x, y);
    }
}

/// The centre of a hexagon cell lies in that cell.
pub proof fn lemma_hexagon_center_stable(cell: Location)
    ensures
        hexagon_cell(hexagon_center(cell).0, hexagon_center(cell).1) == cell,
{
    let center = hexagon_center(cell);
    let site = hexagon_site(cell.x as int, cell.y as int);
    assert(center.0 == site.0 * HEX_HALF_PITCH && center.1 == site.1 * HEX_ROW_HEIGHT);
    assert(distance(center.0 - site.0 * HEX_HALF_PITCH) == 0);
    assert(distance(center.1 - site.1 * HEX_ROW_HEIGHT) == 0);
    assert(2 * UNIT * 0 == 0 && 2 * HEX_ROW_HEIGHT * 0 + UNIT * 0 == 0);
    assert(hexagon_distance(cell.x as int, cell.y as int, center.0, center.1) == 0);
    lemma_hexagon_enclosing_is_found(cell.x as int, cell.y as int, center.0, center.1);
}

} // verus!
