//! The snake: an ordered body of segments, a heading, and a deferred-growth
//! flag, together with the per-tick state transition.

use vstd::prelude::*;
use crate::map::{strictly_inside, GameMap};
use crate::position::{stepped, step_in_range, Direction, Position};
use crate::segment::{Color, Segment, BODY_COLOR, HEAD_COLOR, L, R};

verus! {

/// One frame's snapshot of the four direction keys.
#[derive(Copy, Clone, Debug, PartialEq, Eq, Structural)]
pub struct Keys {
    pub left: bool,
    pub right: bool,
    pub up: bool,
    pub down: bool,
}

/// The heading after one tick's key resolution: the four keys are checked
/// in the fixed order left, right, up, down; each pressed key whose
/// direction is not the exact opposite of the heading resolved so far
/// overwrites it, so a later applicable check wins.
pub open spec fn resolve_direction(d: Direction, k: Keys) -> Direction {
    let d1 = if k.left && d != Direction::Right {
        Direction::Left
    } else {
        d
    };
    let d2 = if k.right && d1 != Direction::Left {
        Direction::Right
    } else {
        d1
    };
    let d3 = if k.up && d2 != Direction::Down {
        Direction::Up
    } else {
        d2
    };
    if k.down && d3 != Direction::Up {
        Direction::Down
    } else {
        d3
    }
}

/// `s` with its color replaced by `c`.
pub open spec fn with_color(s: Segment, c: Color) -> Segment {
    Segment { color: c, ..s }
}

/// The head position lands exactly on a border row or column.
pub open spec fn wall_collision(p: Position, top_left_corner: Position, bot_right_corner: Position) -> bool {
    ||| p.x == top_left_corner.x
    ||| p.x == bot_right_corner.x
    ||| p.y == top_left_corner.y
    ||| p.y == bot_right_corner.y
}

/// The head occupies the same cell as some other body segment.
pub open spec fn self_collision(body: Seq<Segment>) -> bool {
    exists|i: int| 1 <= i < body.len() && #[trigger] body[i].position == body[0].position
}

/// How one tick turns `old_body` into `new_body` when the resolved heading
/// is `d`: the new head sits at index 0, one step along `d` from the old
/// head, and every old segment follows at the next index, recolored as
/// body. When the snake grows the head's storage is brand new and the tail
/// is kept; otherwise the tail segment is recycled into the head.
pub open spec fn advances(old_body: Seq<Segment>, new_body: Seq<Segment>, d: Direction, grew: bool) -> bool {
    &&& new_body.len() == old_body.len() + (if grew {
        1int
    } else {
        0int
    })
    &&& stepped(old_body[0].position, d, new_body[0].position)
    &&& new_body[0].color == HEAD_COLOR
    &&& new_body[0].l_char == (if grew {
        L
    } else {
        old_body.last().l_char
    })
    &&& new_body[0].r_char == (if grew {
        R
    } else {
        old_body.last().r_char
    })
    &&& forall|i: int|
        1 <= i < new_body.len() ==> new_body[i] == with_color(old_body[i - 1], BODY_COLOR)
}

/// The snake's initial number of segments; the body never gets shorter.
pub const INITIAL_LENGTH: usize = 3;

/// The player-controlled segmented body.
pub struct Snek {
    pub body: Vec<Segment>,
    pub direction: Direction,
    pub growing: bool,
}

impl Snek {
    /// The snake's invariant: at least the initial number of segments,
    /// the segment at index 0 — and only it — colored as head, and the
    /// standard glyph pair on every cell.
    pub open spec fn wf(self) -> bool {
        &&& self.body@.len() >= INITIAL_LENGTH
        &&& self.body@[0].color == HEAD_COLOR
        &&& forall|i: int| 1 <= i < self.body@.len() ==> self.body@[i].color == BODY_COLOR
        &&& forall|i: int|
            0 <= i < self.body@.len() ==> self.body@[i].l_char == L && self.body@[i].r_char == R
    }

    /// A newborn snake: the initial number of segments stacked on the
    /// map's center cell, heading right, not growing.
    pub fn hatch(map: &GameMap, x: i32, y: i32) -> (s: Snek)
        requires
            map.wf(),
        ensures
            s.wf(),
            s.body@.len() == INITIAL_LENGTH,
            forall|i: int|
                0 <= i < s.body@.len() ==> s.body@[i].position.x == (map.top_left_corner.x
                    + map.bot_right_corner.x) / 2 && s.body@[i].position.y == (map.top_left_corner.y
                    + map.bot_right_corner.y) / 2,
            s.direction == Direction::Right,
            s.growing == false,
    {
        let _ = x;
        let _ = y;
        let mut body: Vec<Segment> = Vec::new();

        let cx = map.center_x();
        let cy = map.center_y();
        let mut n: usize = 0;
        while n < INITIAL_LENGTH
            invariant
                n <= INITIAL_LENGTH,
                body@.len() == n,
                forall|i: int|
                    0 <= i < n ==> body@[i] == (Segment {
                        l_char: L,
                        r_char: R,
                        color: BODY_COLOR,
                        position: Position { x: cx, y: cy },
                    }),
            decreases INITIAL_LENGTH - n,
        {
            let body_part = Segment::new_at(Position { x: cx, y: cy }, BODY_COLOR);
            body.push(body_part);
            n += 1;
        }

        let mut first = body[0];
        first.color = HEAD_COLOR;
        body.set(0, first);

        Snek { body, direction: Direction::Right, growing: false }
    }

    /// One tick: resolve the heading from the keys, consume food under the
    /// head (respawning it), move the head one cell along the heading —
    /// recycling the tail segment unless growth is pending, in which case
    /// a new segment is added — and report whether the snake is still
    /// alive, that is, the new head hit neither a border cell nor its own
    /// body.
    pub fn slither(&mut self, map: &mut GameMap, keys: Keys) -> (alive: bool)
        requires
            old(self).wf(),
            old(map).wf(),
            step_in_range(old(self).body@[0].position),
        ensures
            final(self).wf(),
            final(map).wf(),
            final(self).direction == resolve_direction(old(self).direction, keys),
            final(self).growing == false,
            final(map).top_left_corner == old(map).top_left_corner,
            final(map).bot_right_corner == old(map).bot_right_corner,
            ({
                let ate = old(self).body@[0].position == old(map).nom.position;
                let grew = old(self).growing || ate;
                &&& advances(
                    old(self).body@,
                    final(self).body@,
                    resolve_direction(old(self).direction, keys),
                    grew,
                )
                &&& !ate ==> *final(map) == *old(map)
                &&& ate ==> strictly_inside(
                    old(map).top_left_corner,
                    old(map).bot_right_corner,
                    final(map).nom.position,
                )
                &&& alive == !(wall_collision(
                    final(self).body@[0].position,
                    old(map).top_left_corner,
                    old(map).bot_right_corner,
                ) || self_collision(final(self).body@))
            }),
    {
        // current head becomes a body part
        let mut old_head = self.body[0];
        old_head.color = BODY_COLOR;
        self.body.set(0, old_head);

        // does the snake change direction?
        if keys.left && self.direction != Direction::Right {
            self.direction = Direction::Left;
        }
        if keys.right && self.direction != Direction::Left {
            self.direction = Direction::Right;
        }
        if keys.up && self.direction != Direction::Down {
            self.direction = Direction::Up;
        }
        if keys.down && self.direction != Direction::Up {
            self.direction = Direction::Down;
        }
        // or is it growing?
        if self.munched(map) {
            self.grow();
        }

        // the new head is created: fresh storage when growing, else the
        // recycled tail segment
        let mut new_head = if self.growing {
            self.growing = false;
            Segment::new()
        } else {
            // the body always holds at least one segment, so the tail can
            // be recycled
            self.body.pop().unwrap()
        };
        new_head.color = HEAD_COLOR;
        new_head.position = self.body[0].position;

        // and moved one cell along the heading
        match self.direction {
            Direction::Up => new_head.position.y = new_head.position.y - 1,
            Direction::Down => new_head.position.y = new_head.position.y + 1,
            Direction::Right => new_head.position.x = new_head.position.x + 1,
            Direction::Left => new_head.position.x = new_head.position.x - 1,
        }

        self.body.insert(0, new_head);

        !(self.hit_wall(map) || self.bit_tail())
    }

    /// Whether the head currently sits on the food; if so the map respawns
    /// the food and the caller must mark the pending growth.
    pub fn munched(&self, map: &mut GameMap) -> (r: bool)
        requires
            self.body@.len() >= 1,
            old(map).wf(),
        ensures
            r == (self.body@[0].position == old(map).nom.position),
            final(map).wf(),
            final(map).top_left_corner == old(map).top_left_corner,
            final(map).bot_right_corner == old(map).bot_right_corner,
            !r ==> *final(map) == *old(map),
            r ==> strictly_inside(
                old(map).top_left_corner,
                old(map).bot_right_corner,
                final(map).nom.position,
            ),
    {
        if self.body[0].position == map.nom_position() {
            map.new_nom();
            true
        } else {
            false
        }
    }

    /// Whether the head sits exactly on a border row or column.
    pub fn hit_wall(&self, map: &GameMap) -> (r: bool)
        requires
            self.body@.len() >= 1,
        ensures
            r == wall_collision(self.body@[0].position, map.top_left_corner, map.bot_right_corner),
    {
        if self.body[0].position.x == map.min_x() || self.body[0].position.x == map.max_x()
            || self.body[0].position.y == map.min_y() || self.body[0].position.y == map.max_y() {
            true
        } else {
            false
        }
    }

    /// Whether the head occupies the same cell as any other body segment.
    pub fn bit_tail(&self) -> (r: bool)
        requires
            self.body@.len() >= 1,
        ensures
            r == self_collision(self.body@),
    {
        let head = self.body[0];
        let mut n: usize = 1;
        while n < self.body.len()
            invariant
                1 <= n <= self.body@.len(),
                head == self.body@[0],
                forall|i: int|
                    1 <= i < n ==> #[trigger] self.body@[i].position != self.body@[0].position,
            decreases self.body@.len() - n,
        {
            if self.body[n].at(&head) {
                return true;
            }
            n += 1;
        }
        false
    }

    /// Marks the growth as pending: the next tick adds a segment instead
    /// of recycling the tail.
    pub fn grow(&mut self)
        ensures
            *final(self) == (Snek { growing: true, ..*old(self) }),
    {
        self.growing = true;
    }
}

} // verus!
