//! The view of the map and the cell under the pointer.

use vstd::prelude::*;
use vstd::arithmetic::div_mod::lemma_fundamental_div_mod;
use crate::hexagon::{hexagon_cell, hexagon_hit};
pub use crate::placement::MapType;
use crate::placement::{
    label_placement,
    label_transform,
    placement_transform,
    tile_placement,
    PlacementTransform,
};
use crate::planet::Location;
use crate::square::{square_cell, square_hit};
use crate::triangle::{triangle_cell, triangle_hit};
use crate::units::{floor_div, saturate_i64, saturated_i64, UNIT};

verus! {

/// The least zoom: twenty pixels to the world unit. A zoom is never less,
/// so that a division by it is safe and keeps its sign.
pub const MIN_ZOOM: i64 = 200_000_000;

/// The zoom of a new view: a hundred pixels to the world unit.
pub const DEFAULT_ZOOM: i64 = 1_000_000_000;

/// The layer on which planets are drawn.
pub const PLANET_LAYER: i64 = 5_000_000;

/// The layer on which the planet under the pointer is drawn.
pub const HOVER_LAYER: i64 = 1_000_000;

/// By how many pixels per world unit one line of the wheel changes the
/// zoom. A wheel that reports pixels changes it by one for each.
pub const LINE_STEP: i64 = 10;

/// What a wheel counts in.
#[derive(Clone, Copy, Debug, PartialEq, Eq, Structural)]
pub enum ScrollUnit {
    Line,
    Pixel,
}

/// The keys that move the view, each held down or not.
#[derive(Clone, Copy, Debug, PartialEq, Eq, Structural)]
pub struct MoveKeys {
    pub up: bool,
    pub down: bool,
    pub right: bool,
    pub left: bool,
}

impl MoveKeys {
    /// Whether any of the keys is down.
    pub open spec fn any(self) -> bool {
        self.up || self.down || self.right || self.left
    }
}

/// What a move of the view did: by how much the camera goes along, and the
/// cell that is under the pointer now.
#[derive(Clone, Copy, Debug, PartialEq, Eq, Structural)]
pub struct WorldMove {
    pub translate_x: i64,
    pub translate_y: i64,
    pub cell: Option<Location>,
}

/// Where a planet and its label are drawn.
#[derive(Clone, Copy, Debug, PartialEq, Eq, Structural)]
pub struct TilePlacement {
    pub shape: PlacementTransform,
    pub label: PlacementTransform,
}

/// The view of the map: which tiling it shows, how far it is zoomed and
/// panned, how large the viewport is, and where the pointer was last seen.
/// Screen lengths are in ticks of a pixel, `zoom` in ticks of a pixel per
/// world unit. The pointer is kept relative to the middle of the viewport.
#[derive(Clone, Copy, Debug)]
pub struct MapConfig {
    pub ty: MapType,
    pub zoom: i64,
    pub width: i64,
    pub height: i64,
    pub x: i64,
    pub y: i64,
    pub mouse_x: Option<i64>,
    pub mouse_y: Option<i64>,
}

/// The zoom that a request for `requested` leads to.
pub open spec fn clamped_zoom(requested: i64) -> i64 {
    if requested < MIN_ZOOM {
        MIN_ZOOM
    } else {
        requested
    }
}

/// A screen offset from the panned origin, in world ticks: the offset
/// divided by the zoom, rounded down.
pub open spec fn to_world(offset: int, zoom: int) -> int {
    (offset * UNIT) / zoom
}

/// One coordinate of a pixel position in the world: the pixel less half
/// the viewport and the pan, divided by the zoom.
pub open spec fn local_coordinate(pixel: int, size: int, pan: int, zoom: int) -> int {
    to_world(pixel - size / 2 - pan, zoom)
}

/// The cell under a point of the world.
pub open spec fn hit_cell(x: int, y: int, ty: MapType) -> Location {
    match ty {
        MapType::Squares => square_cell(x, y),
        MapType::Triangles => triangle_cell(x, y),
        MapType::Hexagons => hexagon_cell(x, y),
    }
}

/// A pan carried over from the zoom `from` to the zoom `to`, so that the
/// same point of the world stays in the middle of the viewport.
pub open spec fn rescaled_pan(pan: int, from: int, to: int) -> i64 {
    saturated_i64((pan * to) / from)
}

/// The zoom that a turn of the wheel by `amount` asks for.
pub open spec fn wheel_target(zoom: i64, amount: i64, unit: ScrollUnit) -> i64 {
    saturated_i64(
        zoom + amount * match unit {
            ScrollUnit::Line => LINE_STEP as int,
            ScrollUnit::Pixel => 1,
        },
    )
}

/// How far the camera goes along one axis: forward by `delta` if the one
/// key is down, back by `delta` if the other is, and nowhere if both are.
pub open spec fn axis_step(forward: bool, back: bool, delta: i64) -> i64 {
    saturated_i64(
        (if forward {
            delta as int
        } else {
            0
        }) - (if back {
            delta as int
        } else {
            0
        }),
    )
}

/// Where a planet on `cell` and its label are drawn under the tiling `ty`.
pub open spec fn planet_placement(cell: Location, ty: MapType) -> TilePlacement {
    TilePlacement {
        shape: tile_placement(cell, ty, PLANET_LAYER),
        label: label_placement(cell, ty),
    }
}

/// Raises a requested zoom to the least zoom where it is below it.
pub fn zoom_clamped(requested: i64) -> (zoom: i64)
    ensures
        zoom == clamped_zoom(requested),
        zoom >= MIN_ZOOM,
{
    if requested < MIN_ZOOM {
        MIN_ZOOM
    } else {
        requested
    }
}

/// The quotient of a screen offset by a zoom stays within `i64`.
proof fn lemma_to_world_in_range(offset: int, zoom: int)
    requires
        zoom >= MIN_ZOOM,
        -3 * 0x8000_0000_0000_0000 <= offset <= 3 * 0x8000_0000_0000_0000,
    ensures
        i64::MIN <= to_world(offset, zoom) <= i64::MAX,
{
    let n = offset * UNIT;
    let q = n / zoom;
    let r = n % zoom;
    lemma_fundamental_div_mod(n, zoom);
    assert(-0x7000_0000_0000_0000 <= q <= 0x7000_0000_0000_0000) by (nonlinear_arith)
        requires
            n == zoom * q + r,
            0 <= r < zoom,
            zoom >= 200_000_000,
            -3 * 0x8000_0000_0000_0000 * 10_000_000 <= n <= 3 * 0x8000_0000_0000_0000
                * 10_000_000,
    ;
}

fn world_offset(offset: i128, zoom: i64) -> (world: i64)
    requires
        zoom >= MIN_ZOOM,
        -3 * 0x8000_0000_0000_0000 <= offset <= 3 * 0x8000_0000_0000_0000,
    ensures
        world == to_world(offset as int, zoom as int),
{
    proof {
        lemma_to_world_in_range(offset as int, zoom as int);
    }
    let scaled: i128 = offset * (UNIT as i128);
    let world: i128 = floor_div(scaled, zoom as i128);
    world as i64
}

/// Converts a pixel position to a point of the world: the position less
/// half the viewport and the pan, divided by the zoom.
pub fn to_local(pixel_x: i64, pixel_y: i64, view: &MapConfig) -> (local: (i64, i64))
    requires
        view.wf(),
    ensures
        local.0 == local_coordinate(
            pixel_x as int,
            view.width as int,
            view.x as int,
            view.zoom as int,
        ),
        local.1 == local_coordinate(
            pixel_y as int,
            view.height as int,
            view.y as int,
            view.zoom as int,
        ),
{
    let half_width: i128 = floor_div(view.width as i128, 2);
    let half_height: i128 = floor_div(view.height as i128, 2);
    let across: i128 = pixel_x as i128 - half_width - view.x as i128;
    let up: i128 = pixel_y as i128 - half_height - view.y as i128;
    (world_offset(across, view.zoom), world_offset(up, view.zoom))
}

/// Finds the cell under a point of the world. Every point has a cell; an
/// index beyond `i32` is clamped.
pub fn hit_test(local_x: i64, local_y: i64, topology: MapType) -> (cell: Location)
    ensures
        cell == hit_cell(local_x as int, local_y as int, topology),
{
    match topology {
        MapType::Squares => square_hit(local_x, local_y),
        MapType::Triangles => triangle_hit(local_x, local_y),
        MapType::Hexagons => hexagon_hit(local_x, local_y),
    }
}

impl MapConfig {
    /// Whether the zoom is at least the least zoom.
    pub open spec fn wf(&self) -> bool {
        self.zoom >= MIN_ZOOM
    }

    /// The cell under the pointer, if the pointer has been seen.
    pub open spec fn pointed_cell(&self) -> Option<Location> {
        match (self.mouse_x, self.mouse_y) {
            (Some(mx), Some(my)) => Some(
                hit_cell(
                    to_world(mx - self.x, self.zoom as int),
                    to_world(my - self.y, self.zoom as int),
                    self.ty,
                ),
            ),
            _ => None,
        }
    }

    /// This view after a request for the zoom `zoom`: the zoom is clamped
    /// and the pan rescaled to it.
    pub open spec fn zoomed(self, zoom: i64) -> MapConfig {
        MapConfig {
            zoom: clamped_zoom(zoom),
            x: rescaled_pan(self.x as int, self.zoom as int, clamped_zoom(zoom) as int),
            y: rescaled_pan(self.y as int, self.zoom as int, clamped_zoom(zoom) as int),
            ..self
        }
    }

    /// This view after the pointer was seen at the pixel `(x, y)`.
    pub open spec fn pointed_at(self, x: i64, y: i64) -> MapConfig {
        MapConfig {
            mouse_x: Some(saturated_i64(x - self.width / 2)),
            mouse_y: Some(saturated_i64(y - self.height / 2)),
            ..self
        }
    }

    /// This view after the pointer was seen at each of `cursor` in turn.
    pub open spec fn after_cursor(self, cursor: Seq<(i64, i64)>) -> MapConfig
        decreases cursor.len(),
    {
        if cursor.len() == 0 {
            self
        } else {
            self.after_cursor(cursor.drop_last()).pointed_at(cursor.last().0, cursor.last().1)
        }
    }

    /// This view after each turn of `wheel` in turn.
    pub open spec fn after_wheel(self, wheel: Seq<(i64, ScrollUnit)>) -> MapConfig
        decreases wheel.len(),
    {
        if wheel.len() == 0 {
            self
        } else {
            let before = self.after_wheel(wheel.drop_last());
            before.zoomed(wheel_target(before.zoom, wheel.last().0, wheel.last().1))
        }
    }

    /// This view after the camera went along by `(across, up)`.
    pub open spec fn panned(self, across: i64, up: i64) -> MapConfig {
        MapConfig {
            x: saturated_i64(self.x - across),
            y: saturated_i64(self.y - up),
            ..self
        }
    }

    /// A view of triangles for a viewport of the given size, at the default
    /// zoom, not panned, that has not seen the pointer yet.
    pub fn new(width: i64, height: i64) -> (view: MapConfig)
        ensures
            view.wf(),
            view == (MapConfig {
                ty: MapType::Triangles,
                zoom: DEFAULT_ZOOM,
                width,
                height,
                x: 0,
                y: 0,
                mouse_x: None,
                mouse_y: None,
            }),
    {
        MapConfig {
            ty: MapType::Triangles,
            zoom: DEFAULT_ZOOM,
            width,
            height,
            x: 0,
            y: 0,
            mouse_x: None,
            mouse_y: None,
        }
    }

    /// Sets the zoom, raised to the least zoom where the request is below
    /// it, and rescales the pan so that the view stays on the same point of
    /// the world.
    pub fn set_zoom(&mut self, zoom: i64)
        requires
            old(self).wf(),
        ensures
            *final(self) == old(self).zoomed(zoom),
            final(self).wf(),
    {
        let from: i128 = self.zoom as i128;
        let to: i64 = zoom_clamped(zoom);
        let pan_x: i128 = self.x as i128;
        let pan_y: i128 = self.y as i128;
        assert(-0x4000_0000_0000_0000_0000_0000_0000_0000 <= pan_x * (to as i128)
            <= 0x4000_0000_0000_0000_0000_0000_0000_0000) by (nonlinear_arith)
            requires
                -0x8000_0000_0000_0000 <= pan_x <= 0x8000_0000_0000_0000,
                0 <= to <= 0x8000_0000_0000_0000,
        ;
        assert(-0x4000_0000_0000_0000_0000_0000_0000_0000 <= pan_y * (to as i128)
            <= 0x4000_0000_0000_0000_0000_0000_0000_0000) by (nonlinear_arith)
            requires
                -0x8000_0000_0000_0000 <= pan_y <= 0x8000_0000_0000_0000,
                0 <= to <= 0x8000_0000_0000_0000,
        ;
        self.x = saturate_i64(floor_div(pan_x * (to as i128), from));
        self.y = saturate_i64(floor_div(pan_y * (to as i128), from));
        self.zoom = to;
    }

    /// Finds the cell under the pointer again, after the view has changed.
    /// There is none while the pointer has not been seen.
    pub fn recalculate(&self) -> (cell: Option<Location>)
        requires
            self.wf(),
        ensures
            cell == self.pointed_cell(),
    {
        match (self.mouse_x, self.mouse_y) {
            (Some(mx), Some(my)) => {
                let local_x: i64 = world_offset(mx as i128 - self.x as i128, self.zoom);
                let local_y: i64 = world_offset(my as i128 - self.y as i128, self.zoom);
                self.contains(local_x, local_y)
            },
            _ => None,
        }
    }

    /// Records the pointer at a pixel position, relative to the middle of
    /// the viewport, and finds the cell under it. A position beyond `i64`
    /// from the middle is clamped.
    pub fn update_mouse(&mut self, x: i64, y: i64) -> (cell: Option<Location>)
        requires
            old(self).wf(),
        ensures
            *final(self) == old(self).pointed_at(x, y),
            cell == final(self).pointed_cell(),
            cell.is_some(),
    {
        let half_width: i128 = floor_div(self.width as i128, 2);
        let half_height: i128 = floor_div(self.height as i128, 2);
        self.mouse_x = Some(saturate_i64(x as i128 - half_width));
        self.mouse_y = Some(saturate_i64(y as i128 - half_height));
        self.recalculate()
    }

    /// Turns the wheel by `amount`, counted in `unit`: the zoom changes by
    /// ten for a line and by one for a pixel, as `set_zoom` does it, and the
    /// cell under the pointer is found again.
    pub fn wheel_zoom(&mut self, amount: i64, unit: ScrollUnit) -> (cell: Option<Location>)
        requires
            old(self).wf(),
        ensures
            *final(self) == old(self).zoomed(wheel_target(old(self).zoom, amount, unit)),
            final(self).wf(),
            cell == final(self).pointed_cell(),
    {
        let step: i128 = match unit {
            ScrollUnit::Line => LINE_STEP as i128,
            ScrollUnit::Pixel => 1,
        };
        let target: i64 = saturate_i64(self.zoom as i128 + amount as i128 * step);
        self.set_zoom(target);
        self.recalculate()
    }

    /// Changes the tiling and computes anew where the planets on
    /// `locations` and their labels are drawn: a cell keeps its indices and
    /// moves on the plane.
    pub fn set_type(&mut self, ty: MapType, locations: &Vec<Location>) -> (placed: Vec<
        TilePlacement,
    >)
        ensures
            *final(self) == (MapConfig { ty, ..*old(self) }),
            placed@.len() == locations@.len(),
            forall|i: int|
                0 <= i < locations@.len() ==> #[trigger] placed@[i] == planet_placement(
                    locations@[i],
                    ty,
                ),
    {
        self.ty = ty;
        let mut placed: Vec<TilePlacement> = Vec::new();
        let mut i: usize = 0;
        while i < locations.len()
            invariant
                0 <= i <= locations.len(),
                self.ty == ty,
                placed@.len() == i,
                forall|k: int|
                    0 <= k < i ==> #[trigger] placed@[k] == planet_placement(locations@[k], ty),
            decreases locations.len() - i,
        {
            let cell = locations[i];
            placed.push(
                TilePlacement {
                    shape: self.shape_transform(&cell, PLANET_LAYER),
                    label: self.text_transform(&cell),
                },
            );
            i += 1;
        }
        placed
    }

    /// Finds the cell of this view's tiling under a point of the world.
    pub fn contains(&self, x: i64, y: i64) -> (cell: Option<Location>)
        ensures
            cell == Some(hit_cell(x as int, y as int, self.ty)),
    {
        Some(hit_test(x, y, self.ty))
    }

    /// Computes where the label of a cell is drawn under this view's
    /// tiling.
    pub fn text_transform(&self, location: &Location) -> (placed: PlacementTransform)
        ensures
            placed == label_placement(*location, self.ty),
    {
        label_transform(*location, self.ty)
    }

    /// Computes where the tile of a cell is drawn under this view's tiling,
    /// on the layer `z`.
    pub fn shape_transform(&self, location: &Location, z: i64) -> (placed: PlacementTransform)
        ensures
            placed == tile_placement(*location, self.ty, z),
    {
        placement_transform(*location, self.ty, z)
    }
}

} // verus!
