use mapbuilder::hexagon::hexagon_hit;
use mapbuilder::map_config::{hit_test, to_local, MapConfig};
use mapbuilder::placement::{center_of, MapType};
use mapbuilder::planet::Location;
use mapbuilder::square::square_hit;
use mapbuilder::triangle::triangle_hit;

const UNIT: i64 = 10_000_000;

fn cell(x: i32, y: i32) -> Location {
    Location { x, y }
}

fn view_800_by_600() -> MapConfig {
    let mut view = MapConfig::new(800 * UNIT, 600 * UNIT);
    view.set_zoom(100 * UNIT);
    view
}

#[test]
fn viewport_center_is_the_origin() {
    let view = view_800_by_600();
    assert_eq!(to_local(400 * UNIT, 300 * UNIT, &view), (0, 0));
    assert_eq!(hit_test(0, 0, MapType::Squares), cell(0, 0));
}

#[test]
fn origin_under_triangles_is_the_center_of_column_one() {
    assert_eq!(center_of(cell(1, 0), MapType::Triangles), (0, 0));
    assert_eq!(hit_test(0, 0, MapType::Triangles), cell(1, 0));
    assert_eq!(center_of(cell(0, 0), MapType::Triangles), (-UNIT / 2, 0));
    assert_eq!(hit_test(-UNIT / 2, 0, MapType::Triangles), cell(0, 0));
}

#[test]
fn a_hundred_pixels_right_is_one_unit_right() {
    let view = view_800_by_600();
    assert_eq!(to_local(500 * UNIT, 300 * UNIT, &view), (UNIT, 0));
    assert_eq!(hit_test(UNIT, 0, MapType::Squares), cell(1, 0));
}

#[test]
fn to_local_subtracts_pan_and_divides_by_zoom() {
    let mut view = MapConfig::new(800 * UNIT, 600 * UNIT);
    view.x = 50 * UNIT;
    view.y = -25 * UNIT;
    // (430 - 400 - 50) / 100 = -0.2, (310 - 300 + 25) / 100 = 0.35
    assert_eq!(to_local(430 * UNIT, 310 * UNIT, &view), (-2_000_000, 3_500_000));
    view.zoom = 40 * UNIT;
    // -20 / 40 = -0.5, 35 / 40 = 0.875
    assert_eq!(to_local(430 * UNIT, 310 * UNIT, &view), (-5_000_000, 8_750_000));
}

#[test]
fn to_local_rounds_down() {
    let mut view = MapConfig::new(0, 0);
    view.zoom = 30 * UNIT;
    // 1 / 30 = 0.0333333|3.., -1 / 30 rounds away from zero
    assert_eq!(to_local(UNIT, -UNIT, &view), (333_333, -333_334));
}

#[test]
fn to_local_at_the_ends_of_the_range() {
    let mut view = MapConfig::new(i64::MIN, i64::MAX);
    view.x = i64::MIN;
    view.y = i64::MAX;
    view.zoom = 20 * UNIT;
    let local = to_local(i64::MAX, i64::MIN, &view);
    // (2^63 - 1 + 2^62 + 2^63) / 20 and (-2^63 - (2^62 - 1) - (2^63 - 1)) / 20, both floored
    assert_eq!(local, (1_152_921_504_606_846_975, -1_152_921_504_606_846_976));
}

#[test]
fn squares_round_to_the_nearest_index() {
    assert_eq!(square_hit(4_999_999, -4_999_999), cell(0, 0));
    assert_eq!(square_hit(5_000_001, -5_000_001), cell(1, -1));
    assert_eq!(square_hit(27 * UNIT + 1_234_567, -13 * UNIT + 4_000_000), cell(27, -13));
    assert_eq!(square_hit(27 * UNIT - 4_000_000, -13 * UNIT - 1_234_567), cell(27, -13));
}

#[test]
fn square_ties_go_away_from_zero() {
    assert_eq!(square_hit(5_000_000, 15_000_000), cell(1, 2));
    assert_eq!(square_hit(-5_000_000, -15_000_000), cell(-1, -2));
}

#[test]
fn square_indices_saturate() {
    assert_eq!(square_hit(i64::MAX, i64::MIN), cell(i32::MAX, i32::MIN));
    let edge = (i32::MAX as i64) * UNIT;
    assert_eq!(square_hit(edge, -edge - UNIT), cell(i32::MAX, i32::MIN));
    assert_eq!(square_hit(edge - UNIT, -edge), cell(i32::MAX - 1, -i32::MAX));
}

#[test]
fn dense_samples_lie_in_the_half_open_square_found() {
    let mut x: i64 = -35_000_001;
    while x < 35_000_000 {
        let mut y: i64 = -35_000_003;
        while y < 35_000_000 {
            let found = square_hit(x, y);
            let mut holders = 0;
            for col in -5i64..=5 {
                for row in -5i64..=5 {
                    let inside = col * UNIT - UNIT / 2 <= x
                        && x < col * UNIT + UNIT / 2
                        && row * UNIT - UNIT / 2 <= y
                        && y < row * UNIT + UNIT / 2;
                    if inside {
                        holders += 1;
                        assert_eq!(found, cell(col as i32, row as i32));
                    }
                }
            }
            assert_eq!(holders, 1);
            y += 1_730_000;
        }
        x += 1_370_000;
    }
}

#[test]
fn triangle_rows_are_bands_around_the_centers() {
    // row 0 spans [-H/2, H/2) with H = 0.8660254
    assert_eq!(triangle_hit(0, -4_330_127).y, 0);
    assert_eq!(triangle_hit(0, -4_330_128).y, -1);
    assert_eq!(triangle_hit(0, 4_330_126).y, 0);
    assert_eq!(triangle_hit(0, 4_330_127).y, 1);
}

#[test]
fn triangle_edges_slant() {
    // Row 0, near the base line: the upright tile of column 0 is centred on
    // x = -0.5 and nearly one unit wide, its flipped neighbours are slivers.
    let low: i64 = -4_000_000;
    assert_eq!(triangle_hit(-9_000_000, low), cell(0, 0));
    assert_eq!(triangle_hit(-1_000_000, low), cell(0, 0));
    assert_eq!(triangle_hit(-100_000, low), cell(1, 0));
    assert_eq!(triangle_hit(100_000, low), cell(1, 0));
    assert_eq!(triangle_hit(1_000_000, low), cell(2, 0));
    // Near the top of the row the upright tile is the sliver.
    let high: i64 = 4_000_000;
    assert_eq!(triangle_hit(-9_000_000, high), cell(-1, 0));
    assert_eq!(triangle_hit(-5_100_000, high), cell(0, 0));
    assert_eq!(triangle_hit(-4_900_000, high), cell(0, 0));
    assert_eq!(triangle_hit(-1_000_000, high), cell(1, 0));
    assert_eq!(triangle_hit(4_000_000, high), cell(1, 0));
}

#[test]
fn triangle_slanted_edge_is_exact() {
    // At a rise of 0.2 above the base line the edge has moved inward by
    // 1.1547005 * 0.2 = 0.2309401 half units, so column 2 of row 0 begins
    // at x = (0.2309401 + 0) / 2 = 0.11547005, rounded up to a tick.
    let y: i64 = -4_330_127 + 2_000_000;
    assert_eq!(triangle_hit(1_154_700, y), cell(1, 0));
    assert_eq!(triangle_hit(1_154_701, y), cell(2, 0));
}

#[test]
fn odd_triangle_rows_are_shifted_by_half_a_unit() {
    assert_eq!(triangle_hit(0, 8_660_254), cell(0, 1));
    assert_eq!(triangle_hit(5_000_000, 8_660_254), cell(1, 1));
    assert_eq!(triangle_hit(0, -8_660_254), cell(0, -1));
    assert_eq!(triangle_hit(0, 2 * 8_660_254), cell(1, 2));
}

#[test]
fn hexagon_centers_and_neighbours() {
    assert_eq!(hexagon_hit(0, 0), cell(0, 0));
    assert_eq!(hexagon_hit(9_000_000, 0), cell(0, 0));
    assert_eq!(hexagon_hit(-9_000_000, 1_000_000), cell(0, 0));
    // right of the corner at x = 1 the neighbours above and below begin
    assert_eq!(hexagon_hit(11_000_000, 1_000_000), cell(0, 1));
    assert_eq!(hexagon_hit(11_000_000, -1_000_000), cell(0, -1));
    assert_eq!(hexagon_hit(-11_000_000, 1_000_000), cell(-1, 1));
    assert_eq!(hexagon_hit(-11_000_000, -1_000_000), cell(-1, -1));
    // straight up, two rows on
    assert_eq!(hexagon_hit(0, 9_000_000), cell(0, 2));
    assert_eq!(hexagon_hit(0, -9_000_000), cell(0, -2));
    // the next hexagon of the same row is three units on
    assert_eq!(hexagon_hit(30_000_000, 0), cell(1, 0));
    assert_eq!(hexagon_hit(21_000_000, 0), cell(1, 0));
}

#[test]
fn hexagon_slanted_edge_is_exact() {
    // Halfway up the row the shared edge is at x = 1 - 0.25 = 0.75.
    assert_eq!(hexagon_hit(7_499_999, 4_330_000), cell(0, 0));
    assert_eq!(hexagon_hit(7_500_000, 4_330_000), cell(0, 1));
}

#[test]
fn centers_are_stable_under_every_tiling() {
    for ty in [MapType::Squares, MapType::Triangles, MapType::Hexagons] {
        for x in -40..=40 {
            for y in -40..=40 {
                let c = cell(x * 7 + 3, y * 11 - 5);
                let center = center_of(c, ty);
                assert_eq!(hit_test(center.0, center.1, ty), c);
            }
        }
        for c in [
            cell(i32::MAX, i32::MAX),
            cell(i32::MIN, i32::MIN),
            cell(i32::MAX, i32::MIN),
            cell(i32::MIN + 1, i32::MAX - 1),
        ] {
            let center = center_of(c, ty);
            assert_eq!(hit_test(center.0, center.1, ty), c);
        }
    }
}

#[test]
fn hit_test_answers_the_same_twice() {
    for ty in [MapType::Squares, MapType::Triangles, MapType::Hexagons] {
        let first = hit_test(123_456_789, -987_654_321, ty);
        let second = hit_test(123_456_789, -987_654_321, ty);
        assert_eq!(first, second);
    }
}

#[test]
fn hit_test_is_total_at_the_ends_of_the_range() {
    for ty in [MapType::Squares, MapType::Triangles, MapType::Hexagons] {
        for x in [i64::MIN, i64::MAX] {
            for y in [i64::MIN, i64::MAX] {
                let found = hit_test(x, y, ty);
                assert_eq!(found.x == i32::MAX, x > 0);
                assert_eq!(found.x == i32::MIN, x < 0);
                assert_eq!(found.y == i32::MAX, y > 0);
                assert_eq!(found.y == i32::MIN, y < 0);
            }
        }
    }
}
