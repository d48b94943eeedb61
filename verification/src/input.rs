//! What the pointer, the wheel, the keys and the window do to the view
//! and to the planets. While the pointer is over a panel they are not for
//! the map.

use vstd::prelude::*;
use crate::map_config::{axis_step, MapConfig, MoveKeys, ScrollUnit, WorldMove};
use crate::planet::{
    deletions,
    is_left_click,
    left_click,
    right_click,
    Location,
    PlacedPlanet,
    PlanetEvent,
    Player,
};
use crate::units::saturate_i64;
use crate::HoveringUI;

verus! {

/// The view after the window took on each of `sizes` in turn: it has the
/// last of them.
pub open spec fn resized(view: MapConfig, sizes: Seq<(i64, i64)>) -> MapConfig {
    if sizes.len() == 0 {
        view
    } else {
        MapConfig { width: sizes.last().0, height: sizes.last().1, ..view }
    }
}

/// Takes in the sizes that the window took on in one frame.
pub fn handle_window_resize(config: &mut MapConfig, sizes: &Vec<(i64, i64)>)
    ensures
        *final(config) == resized(*old(config), sizes@),
{
    if sizes.len() > 0 {
        let size = sizes[sizes.len() - 1];
        config.width = size.0;
        config.height = size.1;
    }
}

/// Moves the view with the keys that are down, by `delta` along each
/// axis, and finds the cell under the pointer again. While no key is
/// down, or the pointer is over a panel, nothing happens.
pub fn world_move(
    config: &mut MapConfig,
    hovering: &HoveringUI,
    keys: MoveKeys,
    delta: i64,
) -> (moved: Option<WorldMove>)
    requires
        old(config).wf(),
    ensures
        final(config).wf(),
        hovering.0 || !keys.any() ==> moved.is_none() && *final(config) == *old(config),
        !hovering.0 && keys.any() ==> *final(config) == old(config).panned(
            axis_step(keys.right, keys.left, delta),
            axis_step(keys.up, keys.down, delta),
        ),
        !hovering.0 && keys.any() ==> moved == Some(
            WorldMove {
                translate_x: axis_step(keys.right, keys.left, delta),
                translate_y: axis_step(keys.up, keys.down, delta),
                cell: final(config).pointed_cell(),
            },
        ),
{
    if hovering.0 || !(keys.up || keys.down || keys.right || keys.left) {
        return None;
    }
    let step: i128 = delta as i128;
    let mut across: i128 = 0;
    let mut up: i128 = 0;
    if keys.up {
        up = up + step;
    }
    if keys.down {
        up = up - step;
    }
    if keys.right {
        across = across + step;
    }
    if keys.left {
        across = across - step;
    }
    let translate_x: i64 = saturate_i64(across);
    let translate_y: i64 = saturate_i64(up);
    config.x = saturate_i64(config.x as i128 - translate_x as i128);
    config.y = saturate_i64(config.y as i128 - translate_y as i128);
    let cell = config.recalculate();
    Some(WorldMove { translate_x, translate_y, cell })
}

/// Takes in the pointer and wheel events of one frame: first every
/// position of the pointer, then every turn of the wheel, each as
/// `update_mouse` and `wheel_zoom` do it. The cell under the pointer
/// after the last of them is returned, if there was any event and the
/// pointer has been seen. While the pointer is over a panel the events
/// are not for the map.
pub fn mouse_events(
    config: &mut MapConfig,
    hovering: &HoveringUI,
    cursor: &Vec<(i64, i64)>,
    wheel: &Vec<(i64, ScrollUnit)>,
) -> (cell: Option<Location>)
    requires
        old(config).wf(),
    ensures
        final(config).wf(),
        hovering.0 ==> cell.is_none() && *final(config) == *old(config),
        !hovering.0 ==> *final(config) == old(config).after_cursor(cursor@).after_wheel(wheel@),
        !hovering.0 ==> cell == if cursor@.len() + wheel@.len() == 0 {
            None
        } else {
            final(config).pointed_cell()
        },
{
    if hovering.0 {
        return None;
    }
    let mut cell: Option<Location> = None;
    let mut i: usize = 0;
    while i < cursor.len()
        invariant
            0 <= i <= cursor.len(),
            config.wf(),
            *config == old(config).after_cursor(cursor@.take(i as int)),
            cell == if i == 0 {
                None
            } else {
                config.pointed_cell()
            },
            i > 0 ==> config.mouse_x.is_some() && config.mouse_y.is_some(),
        decreases cursor.len() - i,
    {
        let at = cursor[i];
        proof {
            assert(cursor@.take(i + 1).drop_last() == cursor@.take(i as int));
        }
        cell = config.update_mouse(at.0, at.1);
        i += 1;
    }
    proof {
        assert(cursor@.take(cursor.len() as int) == cursor@);
    }
    let ghost pointed = *config;
    let mut k: usize = 0;
    while k < wheel.len()
        invariant
            0 <= k <= wheel.len(),
            config.wf(),
            pointed == old(config).after_cursor(cursor@),
            *config == pointed.after_wheel(wheel@.take(k as int)),
            cell == if cursor.len() + k == 0 {
                None
            } else {
                config.pointed_cell()
            },
        decreases wheel.len() - k,
    {
        let turn = wheel[k];
        proof {
            assert(wheel@.take(k + 1).drop_last() == wheel@.take(k as int));
        }
        cell = config.wheel_zoom(turn.0, turn.1);
        k += 1;
    }
    proof {
        assert(wheel@.take(wheel.len() as int) == wheel@);
    }
    cell
}

/// Decides what the clicks of one frame on the hovered cell `loc` do: the
/// left click first, then the right click. While the pointer is over a
/// panel the clicks are not for the map.
pub fn spawn_planet(
    hovering: &HoveringUI,
    planets: &Vec<PlacedPlanet>,
    loc: Location,
    player: Player,
    left: bool,
    right: bool,
) -> (events: Vec<PlanetEvent>)
    ensures
        hovering.0 ==> events@.len() == 0,
        !hovering.0 && left ==> events@.len() > 0 && is_left_click(
            events@[0],
            planets@,
            loc,
            player,
        ),
        !hovering.0 ==> events@.skip(
            if left {
                1int
            } else {
                0
            },
        ) == if right {
            deletions(planets@, loc)
        } else {
            Seq::empty()
        },
{
    let mut events: Vec<PlanetEvent> = Vec::new();
    if hovering.0 {
        return events;
    }
    if left {
        events.push(left_click(planets, loc, player));
    }
    if right {
        let mut deleted = right_click(planets, loc);
        let ghost head = events@;
        events.append(&mut deleted);
        proof {
            assert(events@.skip(head.len() as int) == deletions(planets@, loc));
        }
    }
    events
}


} // verus!
