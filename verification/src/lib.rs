//! Grid coordinate engine of a planet map editor.
//!
//! A map is an unbounded tiling of the plane by squares, triangles or
//! hexagons. The library maps pointer positions to the cell under them and
//! cells to the placement of the tile drawn on them. Continuous quantities
//! are fixed-point integers: `units::UNIT` ticks make one world unit.

use vstd::prelude::*;

pub mod hexagon;
pub mod input;
pub mod laws;
pub mod map_config;
pub mod placement;
pub mod planet;
pub mod scene;
pub mod square;
pub mod triangle;
pub mod units;

verus! {

/// Whether the pointer is over an overlay panel, so that the map ignores it.
pub struct HoveringUI(pub bool);

/// Frames per second, as last measured.
pub struct FPS(pub u32);

/// How long the frame rate is kept before it is measured again: a tenth of
/// a second, in ticks of a second.
pub const FPS_PERIOD: i64 = 1_000_000;

/// The frames per second at which a frame takes `delta` ticks of a second:
/// the inverse of the frame time, rounded down. A frame that took no time
/// counts as the highest rate, one that took less as none.
pub open spec fn frame_rate(delta: i64) -> u32 {
    if delta > 0 {
        (units::UNIT / delta) as u32
    } else if delta == 0 {
        u32::MAX
    } else {
        0
    }
}

/// Counts the time of a frame. Once more than a tenth of a second has
/// passed since the last measurement, the frame rate is measured from this
/// frame and the count starts again.
pub fn fps(delta: i64, cur: &mut i64, frames: &mut FPS)
    ensures
        units::saturated_i64(*old(cur) + delta) > FPS_PERIOD ==> *final(cur) == 0
            && final(frames).0 == frame_rate(delta),
        units::saturated_i64(*old(cur) + delta) <= FPS_PERIOD ==> *final(cur)
            == units::saturated_i64(*old(cur) + delta) && final(frames).0 == old(frames).0,
{
    let total: i64 = units::saturate_i64(*cur as i128 + delta as i128);
    if total > FPS_PERIOD {
        frames.0 = if delta > 0 {
            (units::UNIT / delta) as u32
        } else if delta == 0 {
            u32::MAX
        } else {
            0
        };
        *cur = 0;
    } else {
        *cur = total;
    }
}

} // verus!
