//! Grid coordinates and headings.

use vstd::prelude::*;

verus! {

/// A cell of the unbounded integer grid, compared by its coordinates.
#[derive(Copy, Clone, Debug, PartialEq, Eq, Structural)]
pub struct Position {
    pub x: i32,
    pub y: i32,
}

/// The snake's current heading.
#[derive(Copy, Clone, Debug, PartialEq, Eq, Structural)]
pub enum Direction {
    Up,
    Down,
    Right,
    Left,
}

impl Direction {
    /// The heading that would reverse this one; a single tick may never
    /// turn the snake from a heading straight into its opposite.
    pub open spec fn opposite(self) -> Direction {
        match self {
            Direction::Up => Direction::Down,
            Direction::Down => Direction::Up,
            Direction::Right => Direction::Left,
            Direction::Left => Direction::Right,
        }
    }
}

/// `q` is `p` moved one cell along `d`.
pub open spec fn stepped(p: Position, d: Direction, q: Position) -> bool {
    match d {
        Direction::Up => q.x == p.x && q.y == p.y - 1,
        Direction::Down => q.x == p.x && q.y == p.y + 1,
        Direction::Right => q.x == p.x + 1 && q.y == p.y,
        Direction::Left => q.x == p.x - 1 && q.y == p.y,
    }
}

/// Moving one cell in any direction stays on the 32-bit grid.
pub open spec fn step_in_range(p: Position) -> bool {
    i32::MIN < p.x < i32::MAX && i32::MIN < p.y < i32::MAX
}

} // verus!
