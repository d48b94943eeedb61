//! What an export of the map measures: how far apart its planets are.

use vstd::prelude::*;
use crate::placement::{cell_center, center_of, lemma_center_in_range, MapType};
use crate::planet::Location;

verus! {

/// The square of the distance between the centres of two cells.
pub open spec fn distance_squared(a: Location, b: Location, ty: MapType) -> int {
    let from = cell_center(a, ty);
    let to = cell_center(b, ty);
    (from.0 - to.0) * (from.0 - to.0) + (from.1 - to.1) * (from.1 - to.1)
}

/// Whether `d` is the square of the longest distance between two of the
/// cells: no two are farther apart, and two of them are that far apart.
/// Of no cells it is zero.
pub open spec fn is_longest_squared(d: int, cells: Seq<Location>, ty: MapType) -> bool {
    &&& forall|i: int, j: int|
        0 <= i < cells.len() && 0 <= j < cells.len() ==> #[trigger] distance_squared(
            cells[i],
            cells[j],
            ty,
        ) <= d
    &&& cells.len() == 0 ==> d == 0
    &&& cells.len() > 0 ==> exists|i: int, j: int|
        0 <= i < cells.len() && 0 <= j < cells.len() && #[trigger] distance_squared(
            cells[i],
            cells[j],
            ty,
        ) == d
}

/// A squared distance between two centres fits well into `u128`.
pub proof fn lemma_distance_squared_in_range(a: Location, b: Location, ty: MapType)
    ensures
        0 <= distance_squared(a, b, ty) <= 80_000_000_000_000_000_000_000_000_000_000_000,
{
    lemma_center_in_range(a, ty);
    lemma_center_in_range(b, ty);
    let from = cell_center(a, ty);
    let to = cell_center(b, ty);
    let across = from.0 - to.0;
    let up = from.1 - to.1;
    assert(0 <= across * across <= 40_000_000_000_000_000_000_000_000_000_000_000)
        by (nonlinear_arith)
        requires
            -200_000_000_000_000_000 < across < 200_000_000_000_000_000,
    ;
    assert(0 <= up * up <= 40_000_000_000_000_000_000_000_000_000_000_000) by (nonlinear_arith)
        requires
            -200_000_000_000_000_000 < up < 200_000_000_000_000_000,
    ;
}

/// Computes the square of the distance between the centres of two cells.
pub fn squared_distance(a: Location, b: Location, ty: MapType) -> (d: u128)
    ensures
        d == distance_squared(a, b, ty),
{
    proof {
        lemma_distance_squared_in_range(a, b, ty);
        lemma_center_in_range(a, ty);
        lemma_center_in_range(b, ty);
    }
    let from = center_of(a, ty);
    let to = center_of(b, ty);
    let across: i128 = from.0 as i128 - to.0 as i128;
    let up: i128 = from.1 as i128 - to.1 as i128;
    assert(0 <= across * across <= 40_000_000_000_000_000_000_000_000_000_000_000)
        by (nonlinear_arith)
        requires
            -200_000_000_000_000_000 < across < 200_000_000_000_000_000,
    ;
    assert(0 <= up * up <= 40_000_000_000_000_000_000_000_000_000_000_000) by (nonlinear_arith)
        requires
            -200_000_000_000_000_000 < up < 200_000_000_000_000_000,
    ;
    (across * across + up * up) as u128
}

/// Computes the square of the longest distance between the centres of two
/// of the cells. An export is scaled by it, so that the two planets
/// farthest apart end up at a distance asked for.
pub fn longest_distance_squared(cells: &Vec<Location>, ty: MapType) -> (d: u128)
    ensures
        is_longest_squared(d as int, cells@, ty),
{
    let mut best: u128 = 0;
    let ghost mut far: (int, int) = (0, 0);
    let mut i: usize = 0;
    while i < cells.len()
        invariant
            0 <= i <= cells.len(),
            forall|a: int, b: int|
                0 <= a < i && 0 <= b < cells.len() ==> #[trigger] distance_squared(
                    cells@[a],
                    cells@[b],
                    ty,
                ) <= best,
            cells.len() > 0 ==> 0 <= far.0 < cells.len() && 0 <= far.1 < cells.len()
                && distance_squared(cells@[far.0], cells@[far.1], ty) == best,
            cells.len() == 0 ==> best == 0,
        decreases cells.len() - i,
    {
        let mut j: usize = 0;
        while j < cells.len()
            invariant
                0 <= i < cells.len(),
                0 <= j <= cells.len(),
                forall|a: int, b: int|
                    0 <= a < i && 0 <= b < cells.len() ==> #[trigger] distance_squared(
                        cells@[a],
                        cells@[b],
                        ty,
                    ) <= best,
                forall|b: int|
                    0 <= b < j ==> #[trigger] distance_squared(cells@[i as int], cells@[b], ty)
                        <= best,
                0 <= far.0 < cells.len() && 0 <= far.1 < cells.len() && distance_squared(
                    cells@[far.0],
                    cells@[far.1],
                    ty,
                ) == best,
            decreases cells.len() - j,
        {
            let d: u128 = squared_distance(cells[i], cells[j], ty);
            if d > best {
                best = d;
                proof {
                    far = (i as int, j as int);
                }
            }
            j += 1;
        }
        i += 1;
    }
    best
}

} // verus!
