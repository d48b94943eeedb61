//! The square tiling: unit squares centred on the integer points.

use vstd::prelude::*;
use crate::planet::Location;
use crate::units::{floor_div, saturate_i32, saturated_i32, HALF_UNIT, UNIT};

verus! {

/// The integer nearest to `v / UNIT`. Halfway between two integers the one
/// farther from zero is taken.
pub open spec fn nearest_index(v: int) -> int {
    if v >= 0 {
        (v + HALF_UNIT) / (UNIT as int)
    } else {
        -((HALF_UNIT - v) / (UNIT as int))
    }
}

/// The square cell under the point `(x, y)`.
pub open spec fn square_cell(x: int, y: int) -> Location {
    Location { x: saturated_i32(nearest_index(x)), y: saturated_i32(nearest_index(y)) }
}

/// The centre of a square cell.
pub open spec fn square_center(cell: Location) -> (int, int) {
    (cell.x * UNIT, cell.y * UNIT)
}

/// Whether `v` lies in the half-open span `[c - 1/2, c + 1/2)` of index `c`.
pub open spec fn in_span(c: int, v: int) -> bool {
    c * UNIT - HALF_UNIT <= v < c * UNIT + HALF_UNIT
}

/// Whether `v` lies on the boundary between two spans left of the origin.
/// Only there does the rounding away from zero leave the half-open span.
pub open spec fn negative_tie(v: int) -> bool {
    v < 0 && (HALF_UNIT - v) % (UNIT as int) == 0
}

/// Whether the point `(x, y)` lies in the half-open square of `(col, row)`.
pub open spec fn square_contains(col: int, row: int, x: int, y: int) -> bool {
    in_span(col, x) && in_span(row, y)
}

fn nearest(v: i64) -> (n: i128)
    ensures
        n == nearest_index(v as int),
        -1_000_000_000_000 < n < 1_000_000_000_000,
{
    let wide: i128 = v as i128;
    let half: i128 = HALF_UNIT as i128;
    let unit: i128 = UNIT as i128;
    if wide >= 0 {
        floor_div(wide + half, unit)
    } else {
        -floor_div(half - wide, unit)
    }
}

/// Finds the square cell under a point. An index beyond `i32` is clamped.
pub fn square_hit(x: i64, y: i64) -> (cell: Location)
    ensures
        cell == square_cell(x as int, y as int),
{
    Location { x: saturate_i32(nearest(x)), y: saturate_i32(nearest(y)) }
}

/// Every coordinate is within half a unit of its index.
pub proof fn lemma_nearest_is_near(v: int)
    ensures
        nearest_index(v) * UNIT - HALF_UNIT <= v <= nearest_index(v) * UNIT + HALF_UNIT,
{
}

/// The half-open spans tile the line: away from the boundaries left of the
/// origin, a coordinate lies in the span of its index and in no other.
pub proof fn lemma_span_exactly_one(c: int, v: int)
    requires
        !negative_tie(v),
    ensures
        in_span(c, v) <==> c == nearest_index(v),
{
}

/// The half-open squares tile the plane without gap or overlap: a point
/// off the boundary lines left of and below the origin lies in the square
/// of the cell found for it, and in no other square.
pub proof fn lemma_square_exactly_one(col: int, row: int, x: int, y: int)
    requires
        !negative_tie(x),
        !negative_tie(y),
    ensures
        square_contains(col, row, x, y) <==> (col == nearest_index(x) && row == nearest_index(y)),
{
    lemma_span_exactly_one(col, x);
    lemma_span_exactly_one(row, y);
}

/// On a boundary left of the origin the index found is the one farther
/// from zero, whose half-open span ends just there.
pub proof fn lemma_negative_tie_goes_outward(v: int)
    requires
        negative_tie(v),
    ensures
        v == nearest_index(v) * UNIT + HALF_UNIT,
        in_span(nearest_index(v) + 1, v),
{
}

/// The centre of a square cell lies in that cell.
pub proof fn lemma_square_center_stable(cell: Location)
    ensures
        square_cell(square_center(cell).0, square_center(cell).1) == cell,
{
}

} // verus!
