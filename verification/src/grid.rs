//! Grid coordinate model: integer positions in arena units and the four
//! movement directions of the snake's head.
use vstd::prelude::*;

verus! {

/// A position on the play grid, in arena units (independent of pixels).
#[derive(Clone, Copy, Debug, PartialEq, Eq, Structural)]
pub struct Position {
    pub x: i32,
    pub y: i32,
}

/// The direction the snake's head is facing.
#[derive(Clone, Copy, Debug, PartialEq, Eq, Structural)]
pub enum Direction {
    Left,
    Up,
    Right,
    Down,
}

impl Direction {
    /// The spec-level opposite of a direction (Left↔Right, Up↔Down).
    pub open spec fn spec_opposite(self) -> Direction {
        match self {
            Direction::Left => Direction::Right,
            Direction::Right => Direction::Left,
            Direction::Up => Direction::Down,
            Direction::Down => Direction::Up,
        }
    }

    /// The opposite direction: Left↔Right, Up↔Down.
    pub fn opposite(self) -> (r: Direction)
        ensures
            r == self.spec_opposite(),
    {
        match self {
            Direction::Left => Direction::Right,
            Direction::Right => Direction::Left,
            Direction::Up => Direction::Down,
            Direction::Down => Direction::Up,
        }
    }
}

/// Taking the opposite direction twice gives back the original direction,
/// for every direction.
pub proof fn lemma_opposite_involution(d: Direction)
    ensures
        d.spec_opposite().spec_opposite() == d,
{
}

/// Whether one step from `p` along `d` stays within the machine integer
/// range. The grid itself is unbounded: no wall or wrap-around restricts
/// movement, only the representation does.
pub open spec fn can_step(p: Position, d: Direction) -> bool {
    match d {
        Direction::Left => p.x > i32::MIN,
        Direction::Right => p.x < i32::MAX,
        Direction::Up => p.y < i32::MAX,
        Direction::Down => p.y > i32::MIN,
    }
}

/// The position one grid unit from `p` along `d`: up and down move on the y
/// axis, left and right on the x axis, each by exactly one unit.
pub open spec fn step_pos(p: Position, d: Direction) -> Position {
    match d {
        Direction::Left => Position { x: (p.x - 1) as i32, y: p.y },
        Direction::Right => Position { x: (p.x + 1) as i32, y: p.y },
        Direction::Up => Position { x: p.x, y: (p.y + 1) as i32 },
        Direction::Down => Position { x: p.x, y: (p.y - 1) as i32 },
    }
}

/// One step changes the position by exactly one unit on exactly one axis,
/// the axis and sign matching the direction: up and down add and subtract
/// one on y, right and left add and subtract one on x.
pub proof fn lemma_step_one_axis(p: Position, d: Direction)
    requires
        can_step(p, d),
    ensures
        ({
            let q = step_pos(p, d);
            match d {
                Direction::Left => q.x == p.x - 1 && q.y == p.y,
                Direction::Right => q.x == p.x + 1 && q.y == p.y,
                Direction::Up => q.x == p.x && q.y == p.y + 1,
                Direction::Down => q.x == p.x && q.y == p.y - 1,
            }
        }),
{
}

} // verus!
