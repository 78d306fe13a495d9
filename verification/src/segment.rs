//! Body cells: a glyph pair, a display color and a grid position.

use vstd::prelude::*;
use crate::position::Position;

verus! {

/// The display colors the game uses. The renderer outside this crate maps
/// each to a terminal color of the same name.
#[derive(Copy, Clone, Debug, PartialEq, Eq, Structural)]
pub enum Color {
    White,
    Red,
    DarkRed,
    Green,
}

/// Left glyph of every segment.
pub const L: char = '[';
/// Right glyph of every segment.
pub const R: char = ']';

/// Color of the segment at index 0 of the body.
pub const HEAD_COLOR: Color = Color::DarkRed;
/// Color of every other body segment.
pub const BODY_COLOR: Color = Color::Red;
/// Color of the food segment.
pub const NOM_COLOR: Color = Color::Green;

/// One grid cell of the snake's body (or the food): two adjacent terminal
/// character glyphs, a background color, and the cell's position.
#[derive(Copy, Clone, Debug, PartialEq, Eq, Structural)]
pub struct Segment {
    pub l_char: char,
    pub r_char: char,
    pub color: Color,
    pub position: Position,
}

impl Segment {
    /// A segment with the standard glyph pair at the given position.
    pub fn new_at(position: Position, color: Color) -> (s: Segment)
        ensures
            s == (Segment { l_char: L, r_char: R, color, position }),
    {
        Segment { l_char: L, r_char: R, color, position }
    }

    /// A white segment at the origin; storage for a freshly grown cell.
    pub fn new() -> (s: Segment)
        ensures
            s == (Segment {
                l_char: L,
                r_char: R,
                color: Color::White,
                position: Position { x: 0, y: 0 },
            }),
    {
        Segment::new_at(Position { x: 0, y: 0 }, Color::White)
    }

    /// Whether two segments occupy the same grid cell.
    pub fn at(&self, other: &Segment) -> (r: bool)
        ensures
            r == (self.position == other.position),
    {
        self.position == other.position
    }
}

} // verus!
