//! The cells of the rectangle's border, enumerated for the renderer: the
//! top and bottom rows in full, then the left and right columns between
//! them.

use vstd::prelude::*;
use crate::position::Position;

verus! {

/// `p` lies on the rectangle's border: inside the rectangle and on one of
/// its four edge rows or columns.
pub open spec fn on_border(left: int, right: int, top: int, bottom: int, p: Position) -> bool {
    &&& left <= p.x <= right
    &&& top <= p.y <= bottom
    &&& (p.x == left || p.x == right || p.y == top || p.y == bottom)
}

/// Every cell of the border, each at least once: exactly the positions on
/// the rectangle's four edges.
pub fn border_positions(left: i32, right: i32, top: i32, bottom: i32) -> (cells: Vec<Position>)
    requires
        left <= right,
        top <= bottom,
        right < i32::MAX,
        i32::MIN < top,
        bottom < i32::MAX,
    ensures
        forall|i: int|
            0 <= i < cells@.len() ==> on_border(
                left as int,
                right as int,
                top as int,
                bottom as int,
                #[trigger] cells@[i],
            ),
        forall|p: Position|
            on_border(left as int, right as int, top as int, bottom as int, p)
                ==> cells@.contains(p),
{
    let mut cells: Vec<Position> = Vec::new();

    let mut x: i32 = left;
    while x <= right
        invariant
            left <= x <= right + 1,
            right < i32::MAX,
            top <= bottom,
            forall|i: int|
                0 <= i < cells@.len() ==> on_border(
                    left as int,
                    right as int,
                    top as int,
                    bottom as int,
                    #[trigger] cells@[i],
                ),
            forall|p: Position|
                ((p.y == top || p.y == bottom) && left <= p.x < x) ==> cells@.contains(p),
        decreases right + 1 - x,
    {
        let ghost prev = cells@;
        cells.push(Position { x, y: top });
        cells.push(Position { x, y: bottom });
        proof {
            assert forall|p: Position|
                ((p.y == top || p.y == bottom) && left <= p.x < x + 1) implies cells@.contains(
                p,
            ) by {
                if p.x == x {
                    if p.y == top {
                        assert(cells@[cells@.len() - 2] == p);
                    } else {
                        assert(cells@[cells@.len() - 1] == p);
                    }
                } else {
                    assert(prev.contains(p));
                    let i = choose|i: int| 0 <= i < prev.len() && prev[i] == p;
                    assert(cells@[i] == p);
                }
            }
        }
        x += 1;
    }

    let mut y: i32 = top + 1;
    while y <= bottom - 1
        invariant
            top + 1 <= y <= bottom + 1,
            left <= right,
            top <= bottom,
            i32::MIN < top,
            bottom < i32::MAX,
            forall|i: int|
                0 <= i < cells@.len() ==> on_border(
                    left as int,
                    right as int,
                    top as int,
                    bottom as int,
                    #[trigger] cells@[i],
                ),
            forall|p: Position|
                ((p.y == top || p.y == bottom) && left <= p.x <= right) ==> cells@.contains(p),
            forall|p: Position|
                ((p.x == left || p.x == right) && top < p.y < y && left <= p.x <= right)
                    ==> cells@.contains(p),
        decreases bottom - y,
    {
        let ghost prev = cells@;
        cells.push(Position { x: left, y });
        cells.push(Position { x: right, y });
        proof {
            assert forall|p: Position|
                ((p.y == top || p.y == bottom) && left <= p.x <= right) implies cells@.contains(
                p,
            ) by {
                assert(prev.contains(p));
                let i = choose|i: int| 0 <= i < prev.len() && prev[i] == p;
                assert(cells@[i] == p);
            }
            assert forall|p: Position|
                ((p.x == left || p.x == right) && top < p.y < y + 1 && left <= p.x
                    <= right) implies cells@.contains(p) by {
                if p.y == y {
                    if p.x == left {
                        assert(cells@[cells@.len() - 2] == p);
                    } else {
                        assert(cells@[cells@.len() - 1] == p);
                    }
                } else {
                    assert(prev.contains(p));
                    let i = choose|i: int| 0 <= i < prev.len() && prev[i] == p;
                    assert(cells@[i] == p);
                }
            }
        }
        y += 1;
    }

    cells
}

} // verus!
