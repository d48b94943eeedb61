//! What holds of the engine as a whole, across tilings and calls.

use vstd::prelude::*;
use vstd::arithmetic::div_mod::lemma_fundamental_div_mod;
use crate::hexagon::{
    hexagon_column,
    hexagon_covers,
    hexagon_encloses,
    hexagon_row,
    lemma_hexagon_center_stable,
    lemma_hexagon_covered,
    lemma_hexagon_enclosing_is_found,
};
use crate::map_config::{
    clamped_zoom,
    hit_cell,
    local_coordinate,
    to_world,
    MapConfig,
    MIN_ZOOM,
};
use crate::placement::{cell_center, tile_placement, tile_rotation, MapType, HALF_TURN};
use crate::planet::Location;
use crate::square::{lemma_nearest_is_near, lemma_square_center_stable, nearest_index};
use crate::triangle::{
    lemma_triangle_center_stable,
    lemma_triangle_exactly_one,
    points_down,
    triangle_column,
    triangle_contains,
    triangle_row,
};
use crate::units::{distance, HALF_UNIT, UNIT};

verus! {

/// How far from the origin a point can lie, along each axis, for the
/// indices of its cell to fit `i32` under every tiling: a thousand million
/// units.
pub const REACH: i64 = 10_000_000_000_000_000;

/// The indices of the cell under the point `(x, y)`, before they are
/// clamped to `i32`.
pub open spec fn found_indices(x: int, y: int, ty: MapType) -> (int, int) {
    match ty {
        MapType::Squares => (nearest_index(x), nearest_index(y)),
        MapType::Triangles => (triangle_column(x, y), triangle_row(y)),
        MapType::Hexagons => (hexagon_column(x, y), hexagon_row(x, y)),
    }
}

/// Whether the point `(x, y)` lies on the tile of `(col, row)`, the edges
/// of a square and of a hexagon counted in.
pub open spec fn on_tile(col: int, row: int, x: int, y: int, ty: MapType) -> bool {
    match ty {
        MapType::Squares => distance(x - col * UNIT) <= HALF_UNIT && distance(y - row * UNIT)
            <= HALF_UNIT,
        MapType::Triangles => triangle_contains(col, row, x, y),
        MapType::Hexagons => hexagon_covers(col, row, x, y),
    }
}

/// Under every tiling, every point lies on the tile of the cell found for
/// it: the tiles leave no gap, and the cell found encloses the point.
pub proof fn lemma_found_tile_holds_point(x: int, y: int, ty: MapType)
    ensures
        on_tile(found_indices(x, y, ty).0, found_indices(x, y, ty).1, x, y, ty),
{
    match ty {
        MapType::Squares => {
            lemma_nearest_is_near(x);
            lemma_nearest_is_near(y);
        },
        MapType::Triangles => {
            lemma_triangle_exactly_one(triangle_column(x, y), triangle_row(y), x, y);
        },
        MapType::Hexagons => lemma_hexagon_covered(x, y),
    }
}

/// Whether the point `(x, y)` lies on the tile of `(col, row)` and not on
/// an edge that it shares with another tile.
pub open spec fn inside_tile(col: int, row: int, x: int, y: int, ty: MapType) -> bool {
    match ty {
        MapType::Squares => distance(x - col * UNIT) < HALF_UNIT && distance(y - row * UNIT)
            < HALF_UNIT,
        MapType::Triangles => triangle_contains(col, row, x, y),
        MapType::Hexagons => hexagon_encloses(col, row, x, y),
    }
}

/// Under every tiling the tiles do not overlap: a point inside a tile has
/// the cell of that tile found for it, and so lies inside no other tile.
pub proof fn lemma_enclosing_tile_is_found(col: int, row: int, x: int, y: int, ty: MapType)
    requires
        inside_tile(col, row, x, y, ty),
    ensures
        found_indices(x, y, ty) == (col, row),
{
    match ty {
        MapType::Squares => {},
        MapType::Triangles => lemma_triangle_exactly_one(col, row, x, y),
        MapType::Hexagons => lemma_hexagon_enclosing_is_found(col, row, x, y),
    }
}

/// Within a thousand million units of the origin no index is clamped: the
/// cell found has the indices of the tile that holds the point.
pub proof fn lemma_hit_within_reach(x: int, y: int, ty: MapType)
    requires
        -REACH <= x <= REACH,
        -REACH <= y <= REACH,
    ensures
        hit_cell(x, y, ty).x == found_indices(x, y, ty).0,
        hit_cell(x, y, ty).y == found_indices(x, y, ty).1,
        on_tile(hit_cell(x, y, ty).x as int, hit_cell(x, y, ty).y as int, x, y, ty),
{
    lemma_found_tile_holds_point(x, y, ty);
}

/// Under every tiling, the cell found under the centre of a cell is that
/// cell.
pub proof fn lemma_center_stability(cell: Location, ty: MapType)
    ensures
        hit_cell(cell_center(cell, ty).0, cell_center(cell, ty).1, ty) == cell,
        hit_cell(
            tile_placement(cell, ty, 0).x as int,
            tile_placement(cell, ty, 0).y as int,
            ty,
        ) == cell,
{
    match ty {
        MapType::Squares => lemma_square_center_stable(cell),
        MapType::Triangles => lemma_triangle_center_stable(cell),
        MapType::Hexagons => lemma_hexagon_center_stable(cell),
    }
}

/// A zoom that was asked for is never below the least zoom, whatever was
/// asked for.
pub proof fn lemma_zoom_floor(requested: i64)
    ensures
        clamped_zoom(requested) >= MIN_ZOOM,
        clamped_zoom(requested) >= requested,
        requested >= MIN_ZOOM ==> clamped_zoom(requested) == requested,
{
}

/// A screen offset divided by the zoom is rounded down to a tick, by less
/// than a tick: it is exact wherever the quotient is a whole number of
/// ticks.
pub proof fn lemma_to_world_rounds_down(offset: int, zoom: int)
    requires
        zoom > 0,
    ensures
        to_world(offset, zoom) * zoom <= offset * UNIT < (to_world(offset, zoom) + 1) * zoom,
{
    let n = offset * UNIT;
    lemma_fundamental_div_mod(n, zoom);
    let q = n / zoom;
    let r = n % zoom;
    assert(q * zoom <= n < (q + 1) * zoom) by (nonlinear_arith)
        requires
            n == zoom * q + r,
            0 <= r < zoom,
    ;
}

/// Zooming in never moves a point away from the origin: at a larger zoom
/// a screen offset is at most as far from the origin of the world as at a
/// smaller one.
pub proof fn lemma_zoom_draws_nearer(offset: int, zoom: int, more: int)
    requires
        0 < zoom <= more,
    ensures
        distance(to_world(offset, more)) <= distance(to_world(offset, zoom)),
{
    let n = offset * UNIT;
    lemma_fundamental_div_mod(n, zoom);
    lemma_fundamental_div_mod(n, more);
    let q1 = n / zoom;
    let r1 = n % zoom;
    let q2 = n / more;
    let r2 = n % more;
    if n >= 0 {
        assert(0 <= q2 <= q1) by (nonlinear_arith)
            requires
                n == zoom * q1 + r1,
                0 <= r1 < zoom,
                n == more * q2 + r2,
                0 <= r2 < more,
                0 < zoom <= more,
                n >= 0,
        ;
    } else {
        assert(q1 <= q2 < 0) by (nonlinear_arith)
            requires
                n == zoom * q1 + r1,
                0 <= r1 < zoom,
                n == more * q2 + r2,
                0 <= r2 < more,
                0 < zoom <= more,
                n < 0,
        ;
    }
}

/// Zooming in moves a point strictly nearer to the origin as soon as the
/// two exact quotients are a tick or more apart. (Closer zooms can round
/// to the same tick, and a point on the origin stays there.)
pub proof fn lemma_zoom_draws_strictly_nearer(offset: int, zoom: int, more: int)
    requires
        0 < zoom < more,
        distance(offset) * UNIT * (more - zoom) >= zoom * more,
    ensures
        distance(to_world(offset, more)) < distance(to_world(offset, zoom)),
{
    let n = offset * UNIT;
    lemma_fundamental_div_mod(n, zoom);
    lemma_fundamental_div_mod(n, more);
    let q1 = n / zoom;
    let r1 = n % zoom;
    let q2 = n / more;
    let r2 = n % more;
    if offset >= 0 {
        assert(0 <= q2 < q1) by (nonlinear_arith)
            requires
                n == zoom * q1 + r1,
                0 <= r1 < zoom,
                n == more * q2 + r2,
                0 <= r2 < more,
                0 < zoom < more,
                n >= 0,
                n * (more - zoom) >= zoom * more,
        ;
    } else {
        assert(q1 < q2 < 0) by (nonlinear_arith)
            requires
                n == zoom * q1 + r1,
                0 <= r1 < zoom,
                n == more * q2 + r2,
                0 <= r2 < more,
                0 < zoom < more,
                n < 0,
                (-n) * (more - zoom) >= zoom * more,
        ;
    }
}

/// For a fixed pixel, viewport and pan, zooming in never moves the point
/// of the world under the pixel away from the origin.
pub proof fn lemma_zoom_monotone(pixel: int, size: int, pan: int, zoom: int, more: int)
    requires
        0 < zoom <= more,
    ensures
        distance(local_coordinate(pixel, size, pan, more)) <= distance(
            local_coordinate(pixel, size, pan, zoom),
        ),
{
    lemma_zoom_draws_nearer(pixel - size / 2 - pan, zoom, more);
}

/// For a fixed pixel, viewport and pan, asking for a larger zoom never
/// moves the point of the world under the pixel away from the origin. Two
/// requests below the least zoom lead to the same point.
pub proof fn lemma_zoom_request_monotone(
    pixel: int,
    size: int,
    pan: int,
    requested: i64,
    more: i64,
)
    requires
        requested <= more,
    ensures
        distance(local_coordinate(pixel, size, pan, clamped_zoom(more) as int)) <= distance(
            local_coordinate(pixel, size, pan, clamped_zoom(requested) as int),
        ),
        more <= MIN_ZOOM ==> local_coordinate(pixel, size, pan, clamped_zoom(more) as int)
            == local_coordinate(pixel, size, pan, clamped_zoom(requested) as int),
{
    lemma_zoom_monotone(
        pixel,
        size,
        pan,
        clamped_zoom(requested) as int,
        clamped_zoom(more) as int,
    );
}

/// A triangle is turned by half a turn where its column is odd, and not at
/// all where it is even, on every layer.
pub proof fn lemma_triangle_orientation(cell: Location, z: i64)
    ensures
        tile_placement(cell, MapType::Triangles, z).rotation_degrees == if cell.x as int % 2
            != 0 {
            HALF_TURN
        } else {
            0
        },
{
}

/// The triangles that are drawn turned around are those whose tile points
/// down, so that what is drawn is what the pointer finds.
pub proof fn lemma_turned_triangles_point_down(cell: Location)
    ensures
        tile_rotation(cell, MapType::Triangles) == HALF_TURN <==> points_down(cell.x as int),
{
}

/// The cell found depends on the point and the tiling alone: two results
/// for the same point and tiling are the same cell.
pub proof fn lemma_hit_deterministic(
    x1: int,
    y1: int,
    ty1: MapType,
    first: Location,
    x2: int,
    y2: int,
    ty2: MapType,
    second: Location,
)
    requires
        first == hit_cell(x1, y1, ty1),
        second == hit_cell(x2, y2, ty2),
        x1 == x2,
        y1 == y2,
        ty1 == ty2,
    ensures
        first == second,
{
}

/// While the pointer is within `i64` of the middle of the viewport, the
/// cell under it is the cell found for its point of the world.
pub proof fn lemma_pointed_cell_is_hit(view: MapConfig, pixel_x: i64, pixel_y: i64)
    requires
        i64::MIN <= pixel_x - view.width / 2 <= i64::MAX,
        i64::MIN <= pixel_y - view.height / 2 <= i64::MAX,
    ensures
        view.pointed_at(pixel_x, pixel_y).pointed_cell() == Some(
            hit_cell(
                local_coordinate(
                    pixel_x as int,
                    view.width as int,
                    view.x as int,
                    view.zoom as int,
                ),
                local_coordinate(
                    pixel_y as int,
                    view.height as int,
                    view.y as int,
                    view.zoom as int,
                ),
                view.ty,
            ),
        ),
{
}

/// Changing the tiling moves no planet to another cell: it only changes
/// where the cells lie, and the centre of each cell is found in that cell
/// under the new tiling as under the old one.
pub proof fn lemma_retiling_keeps_cells(cell: Location, from: MapType, to: MapType)
    ensures
        hit_cell(cell_center(cell, from).0, cell_center(cell, from).1, from) == hit_cell(
            cell_center(cell, to).0,
            cell_center(cell, to).1,
            to,
        ),
{
    lemma_center_stability(cell, from);
    lemma_center_stability(cell, to);
}

} // verus!
