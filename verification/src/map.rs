//! The playable rectangle and the food ("nom") spawner.

use vstd::prelude::*;
use crate::position::Position;
use crate::rng::{gen_range_i32, new_thread_rng};
use crate::segment::{Segment, L, R, NOM_COLOR};

verus! {

/// A well-formed playable rectangle: it sits in the terminal's non-negative
/// quadrant, is wide and tall enough to hold at least one interior cell
/// (else the food draw range would be empty), and its corner sums stay in
/// `i32` range so the center is computable.
pub open spec fn rect_wf(top_left_corner: Position, bot_right_corner: Position) -> bool {
    &&& 0 <= top_left_corner.x
    &&& 0 <= top_left_corner.y
    &&& top_left_corner.x + 1 < bot_right_corner.x
    &&& top_left_corner.y + 1 < bot_right_corner.y
    &&& top_left_corner.x + bot_right_corner.x <= i32::MAX
    &&& top_left_corner.y + bot_right_corner.y <= i32::MAX
}

/// `p` lies strictly inside the rectangle, off every border row and column.
pub open spec fn strictly_inside(top_left_corner: Position, bot_right_corner: Position, p: Position) -> bool {
    &&& top_left_corner.x < p.x < bot_right_corner.x
    &&& top_left_corner.y < p.y < bot_right_corner.y
}

/// Draws random food positions; owns the random generator handle.
pub struct NomSpawner {
    pub rng: rand::rngs::ThreadRng,
}

impl NomSpawner {
    /// A food segment at a random position strictly inside the rectangle:
    /// x is drawn from `[top_left.x + 1, bot_right.x)` and y likewise, so
    /// the border rows and columns are excluded.
    pub fn spawn_between(&mut self, top_left_corner: Position, bot_right_corner: Position) -> (s: Segment)
        requires
            top_left_corner.x + 1 < bot_right_corner.x,
            top_left_corner.y + 1 < bot_right_corner.y,
        ensures
            s.l_char == L,
            s.r_char == R,
            s.color == NOM_COLOR,
            strictly_inside(top_left_corner, bot_right_corner, s.position),
    {
        Segment::new_at(
            Position {
                x: gen_range_i32(&mut self.rng, top_left_corner.x + 1, bot_right_corner.x),
                y: gen_range_i32(&mut self.rng, top_left_corner.y + 1, bot_right_corner.y),
            },
            NOM_COLOR,
        )
    }

    /// A random position in the rectangle, border cells included on the
    /// low side: x from `[min_x, max_x)`, y from `[min_y, max_y)`.
    pub fn spawn(&mut self, map: &GameMap) -> (p: Position)
        requires
            map.top_left_corner.x < map.bot_right_corner.x,
            map.top_left_corner.y < map.bot_right_corner.y,
        ensures
            map.top_left_corner.x <= p.x < map.bot_right_corner.x,
            map.top_left_corner.y <= p.y < map.bot_right_corner.y,
    {
        let x: i32 = gen_range_i32(&mut self.rng, map.min_x(), map.max_x());
        let y: i32 = gen_range_i32(&mut self.rng, map.min_y(), map.max_y());

        Position { x, y }
    }
}

/// The fixed playable rectangle together with the single current food
/// segment; the rectangle never changes, the food is replaced when eaten.
pub struct GameMap {
    pub top_left_corner: Position,
    pub bot_right_corner: Position,
    pub nom_spawner: NomSpawner,
    pub nom: Segment,
}

impl GameMap {
    /// The map's invariant: a well-formed rectangle whose food lies
    /// strictly inside it.
    pub open spec fn wf(self) -> bool {
        &&& rect_wf(self.top_left_corner, self.bot_right_corner)
        &&& strictly_inside(self.top_left_corner, self.bot_right_corner, self.nom.position)
    }

    /// A map with the given corners and a freshly spawned food segment.
    pub fn from_coords(top_left_corner: Position, bot_right_corner: Position) -> (m: GameMap)
        requires
            rect_wf(top_left_corner, bot_right_corner),
        ensures
            m.wf(),
            m.top_left_corner == top_left_corner,
            m.bot_right_corner == bot_right_corner,
    {
        let mut nom_spawner = NomSpawner { rng: new_thread_rng() };
        let nom = nom_spawner.spawn_between(top_left_corner, bot_right_corner);
        GameMap { top_left_corner, bot_right_corner, nom_spawner, nom }
    }

    pub fn min_x(&self) -> (r: i32)
        ensures
            r == self.top_left_corner.x,
    {
        self.top_left_corner.x
    }

    pub fn max_x(&self) -> (r: i32)
        ensures
            r == self.bot_right_corner.x,
    {
        self.bot_right_corner.x
    }

    pub fn min_y(&self) -> (r: i32)
        ensures
            r == self.top_left_corner.y,
    {
        self.top_left_corner.y
    }

    pub fn max_y(&self) -> (r: i32)
        ensures
            r == self.bot_right_corner.y,
    {
        self.bot_right_corner.y
    }

    /// Horizontal center of the rectangle, used for initial placement.
    pub fn center_x(&self) -> (r: i32)
        requires
            0 <= self.top_left_corner.x,
            0 <= self.bot_right_corner.x,
            self.top_left_corner.x + self.bot_right_corner.x <= i32::MAX,
        ensures
            r == (self.top_left_corner.x + self.bot_right_corner.x) / 2,
    {
        (self.min_x() + self.max_x()) / 2
    }

    /// Vertical center of the rectangle, used for initial placement.
    pub fn center_y(&self) -> (r: i32)
        requires
            0 <= self.top_left_corner.y,
            0 <= self.bot_right_corner.y,
            self.top_left_corner.y + self.bot_right_corner.y <= i32::MAX,
        ensures
            r == (self.top_left_corner.y + self.bot_right_corner.y) / 2,
    {
        (self.min_y() + self.max_y()) / 2
    }

    /// Replaces the food with a freshly spawned one, strictly inside the
    /// rectangle. The new position is random: it may coincide with the old
    /// one or with a snake cell, and nothing more is promised of it.
    pub fn new_nom(&mut self)
        requires
            old(self).wf(),
        ensures
            final(self).wf(),
            final(self).top_left_corner == old(self).top_left_corner,
            final(self).bot_right_corner == old(self).bot_right_corner,
            strictly_inside(
                old(self).top_left_corner,
                old(self).bot_right_corner,
                final(self).nom.position,
            ),
            final(self).nom.l_char == L,
            final(self).nom.r_char == R,
            final(self).nom.color == NOM_COLOR,
    {
        self.nom = self.nom_spawner.spawn_between(self.top_left_corner, self.bot_right_corner);
    }

    /// The grid cell the food currently occupies.
    pub fn nom_position(&self) -> (p: Position)
        ensures
            p == self.nom.position,
    {
        self.nom.position
    }
}

} // verus!
