use mapbuilder::map_config::{to_local, zoom_clamped, MapConfig, DEFAULT_ZOOM, MIN_ZOOM};
use mapbuilder::placement::{label_transform, placement_transform, MapType, PlacementTransform};
use mapbuilder::planet::Location;
use mapbuilder::{HoveringUI, FPS};

const UNIT: i64 = 10_000_000;

fn cell(x: i32, y: i32) -> Location {
    Location { x, y }
}

#[test]
fn zoom_is_never_below_the_floor() {
    assert_eq!(MIN_ZOOM, 20 * UNIT);
    assert_eq!(zoom_clamped(0), MIN_ZOOM);
    assert_eq!(zoom_clamped(-5 * UNIT), MIN_ZOOM);
    assert_eq!(zoom_clamped(i64::MIN), MIN_ZOOM);
    assert_eq!(zoom_clamped(MIN_ZOOM - 1), MIN_ZOOM);
    assert_eq!(zoom_clamped(MIN_ZOOM), MIN_ZOOM);
    assert_eq!(zoom_clamped(MIN_ZOOM + 1), MIN_ZOOM + 1);
    assert_eq!(zoom_clamped(i64::MAX), i64::MAX);
}

#[test]
fn new_view_shows_triangles_at_the_default_zoom() {
    let view = MapConfig::new(800 * UNIT, 600 * UNIT);
    assert_eq!(view.ty, MapType::Triangles);
    assert_eq!(view.zoom, DEFAULT_ZOOM);
    assert_eq!(view.zoom, 100 * UNIT);
    assert_eq!((view.width, view.height), (800 * UNIT, 600 * UNIT));
    assert_eq!((view.x, view.y), (0, 0));
    assert_eq!((view.mouse_x, view.mouse_y), (None, None));
    assert_eq!(view.recalculate(), None);
}

#[test]
fn set_zoom_rescales_the_pan() {
    let mut view = MapConfig::new(800 * UNIT, 600 * UNIT);
    view.x = 150 * UNIT;
    view.y = -50 * UNIT;
    view.set_zoom(200 * UNIT);
    assert_eq!(view.zoom, 200 * UNIT);
    assert_eq!((view.x, view.y), (300 * UNIT, -100 * UNIT));
    view.set_zoom(-1);
    assert_eq!(view.zoom, MIN_ZOOM);
    assert_eq!((view.x, view.y), (30 * UNIT, -10 * UNIT));
}

#[test]
fn set_zoom_saturates_the_pan() {
    let mut view = MapConfig::new(0, 0);
    view.zoom = MIN_ZOOM;
    view.x = i64::MAX;
    view.y = i64::MIN;
    view.set_zoom(40 * UNIT);
    assert_eq!((view.x, view.y), (i64::MAX, i64::MIN));
}

#[test]
fn zooming_in_draws_a_pixel_nearer_to_the_origin() {
    let mut view = MapConfig::new(800 * UNIT, 600 * UNIT);
    let mut last = (i64::MAX, i64::MAX);
    for zoom in [20, 21, 50, 100, 101, 400, 10_000] {
        view.zoom = zoom * UNIT;
        let local = to_local(730 * UNIT, 20 * UNIT, &view);
        assert!(local.0 > 0 && local.1 < 0);
        assert!(local.0 < last.0 && -local.1 < last.1);
        last = (local.0, -local.1);
    }
    view.zoom = 100 * UNIT;
    assert_eq!(to_local(730 * UNIT, 20 * UNIT, &view), (33_000_000, -28_000_000));
}

#[test]
fn update_mouse_finds_the_cell_under_the_pointer() {
    let mut view = MapConfig::new(800 * UNIT, 600 * UNIT);
    view.ty = MapType::Squares;
    assert_eq!(view.update_mouse(500 * UNIT, 300 * UNIT), Some(cell(1, 0)));
    assert_eq!(view.mouse_x, Some(100 * UNIT));
    assert_eq!(view.mouse_y, Some(0));
    assert_eq!(view.recalculate(), Some(cell(1, 0)));
    view.x = -200 * UNIT;
    assert_eq!(view.recalculate(), Some(cell(3, 0)));
    view.set_zoom(50 * UNIT);
    assert_eq!(view.x, -100 * UNIT);
    assert_eq!(view.recalculate(), Some(cell(4, 0)));
    view.ty = MapType::Triangles;
    assert_eq!(view.recalculate(), Some(cell(9, 0)));
    view.x = -75 * UNIT;
    assert_eq!(view.recalculate(), Some(cell(8, 0)));
    view.ty = MapType::Hexagons;
    assert_eq!(view.recalculate(), Some(cell(1, 0)));
}

#[test]
fn update_mouse_saturates_the_pointer() {
    let mut view = MapConfig::new(i64::MIN, i64::MAX);
    view.ty = MapType::Squares;
    let found = view.update_mouse(i64::MAX, i64::MIN);
    assert_eq!(view.mouse_x, Some(i64::MAX));
    assert_eq!(view.mouse_y, Some(i64::MIN));
    assert!(found.is_some());
}

#[test]
fn contains_uses_the_tiling_of_the_view() {
    let mut view = MapConfig::new(0, 0);
    assert_eq!(view.contains(0, 0), Some(cell(1, 0)));
    view.ty = MapType::Squares;
    assert_eq!(view.contains(0, 0), Some(cell(0, 0)));
    view.ty = MapType::Hexagons;
    assert_eq!(view.contains(16_000_000, 8_000_000), Some(cell(0, 1)));
}

#[test]
fn squares_are_placed_on_their_indices() {
    let placed = placement_transform(cell(3, -4), MapType::Squares, 5_000_000);
    assert_eq!(
        placed,
        PlacementTransform {
            x: 3 * UNIT,
            y: -4 * UNIT,
            z: 5_000_000,
            rotation_degrees: 0,
            scale: UNIT
        }
    );
}

#[test]
fn triangles_are_placed_in_shifted_rows() {
    let even_row = placement_transform(cell(4, 2), MapType::Triangles, 0);
    assert_eq!((even_row.x, even_row.y), (15_000_000, 17_320_508));
    let odd_row = placement_transform(cell(4, 3), MapType::Triangles, 0);
    assert_eq!((odd_row.x, odd_row.y), (20_000_000, 25_980_762));
    let below = placement_transform(cell(-4, -3), MapType::Triangles, 0);
    assert_eq!((below.x, below.y), (-20_000_000, -25_980_762));
    let below_even = placement_transform(cell(-4, -2), MapType::Triangles, 0);
    assert_eq!((below_even.x, below_even.y), (-25_000_000, -17_320_508));
}

#[test]
fn triangles_of_odd_columns_are_turned_around() {
    for x in [-5, -3, -1, 1, 3, 7, i32::MAX, i32::MIN + 1] {
        for y in [-2, -1, 0, 1, 2] {
            let placed = placement_transform(cell(x, y), MapType::Triangles, 1);
            assert_eq!(placed.rotation_degrees, 180);
        }
    }
    for x in [-4, -2, 0, 2, 6, i32::MAX - 1, i32::MIN] {
        for y in [-2, -1, 0, 1, 2] {
            let placed = placement_transform(cell(x, y), MapType::Triangles, 1);
            assert_eq!(placed.rotation_degrees, 0);
        }
    }
}

#[test]
fn hexagons_are_placed_in_shifted_rows() {
    let even_row = placement_transform(cell(2, 4), MapType::Hexagons, 7);
    assert_eq!(
        even_row,
        PlacementTransform {
            x: 60_000_000,
            y: 34_640_000,
            z: 7,
            rotation_degrees: 30,
            scale: UNIT
        }
    );
    let odd_row = placement_transform(cell(2, -3), MapType::Hexagons, 7);
    assert_eq!((odd_row.x, odd_row.y), (75_000_000, -25_980_000));
    let odd_above = placement_transform(cell(-2, 3), MapType::Hexagons, 7);
    assert_eq!((odd_above.x, odd_above.y), (-45_000_000, 25_980_000));
}

#[test]
fn labels_stand_below_the_tiles() {
    let square = label_transform(cell(3, -4), MapType::Squares);
    assert_eq!(
        square,
        PlacementTransform {
            x: 3 * UNIT,
            y: -46_000_000,
            z: 15_000_000,
            rotation_degrees: 0,
            scale: 100_000
        }
    );
    let triangle = label_transform(cell(5, 2), MapType::Triangles);
    assert_eq!(
        triangle,
        PlacementTransform {
            x: 20_000_000,
            y: 11_320_508,
            z: 0,
            rotation_degrees: 0,
            scale: 100_000
        }
    );
    let hexagon = label_transform(cell(1, 1), MapType::Hexagons);
    assert_eq!(
        hexagon,
        PlacementTransform {
            x: 45_000_000,
            y: -2_340_000,
            z: 15_000_000,
            rotation_degrees: 0,
            scale: 100_000
        }
    );
}

#[test]
fn view_methods_agree_with_the_engine() {
    let mut view = MapConfig::new(0, 0);
    for ty in [MapType::Squares, MapType::Triangles, MapType::Hexagons] {
        view.ty = ty;
        let c = cell(-7, 9);
        assert_eq!(view.shape_transform(&c, 3), placement_transform(c, ty, 3));
        assert_eq!(view.text_transform(&c), label_transform(c, ty));
    }
}

#[test]
fn overlay_flags_hold_their_values() {
    let hovering = HoveringUI(true);
    let frames = FPS(120);
    assert!(hovering.0);
    assert_eq!(frames.0, 120);
}
