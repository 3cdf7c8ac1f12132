//! Input mapping: the pressed state of the four directional keys, read once
//! per frame, resolved to a direction with priority Left > Right > Down > Up.
//! No input is rejected; in particular an immediate reversal of direction is
//! accepted, exactly as the game behaves.
use vstd::prelude::*;

use crate::grid::Direction;

verus! {

/// The pressed state of the four directional keys for one frame.
#[derive(Clone, Copy, Debug, PartialEq, Eq, Structural)]
pub struct DirectionalKeys {
    pub left: bool,
    pub right: bool,
    pub down: bool,
    pub up: bool,
}

/// The direction that a frame's key state resolves to: the first pressed key
/// in priority order Left > Right > Down > Up wins; with no key pressed the
/// current direction is kept.
pub open spec fn spec_resolve(keys: DirectionalKeys, current: Direction) -> Direction {
    if keys.left {
        Direction::Left
    } else if keys.right {
        Direction::Right
    } else if keys.down {
        Direction::Down
    } else if keys.up {
        Direction::Up
    } else {
        current
    }
}

/// Resolve one frame's key state against the current direction.
pub fn resolve_direction(keys: DirectionalKeys, current: Direction) -> (r: Direction)
    ensures
        r == spec_resolve(keys, current),
{
    if keys.left {
        Direction::Left
    } else if keys.right {
        Direction::Right
    } else if keys.down {
        Direction::Down
    } else if keys.up {
        Direction::Up
    } else {
        current
    }
}

} // verus!
