//! The game's general laws, stated and proved over the spec functions that
//! the per-tick transition's contract uses.

use vstd::prelude::*;
use crate::position::{stepped, Direction};
use crate::segment::{Segment, HEAD_COLOR};
use crate::snek::{advances, resolve_direction, Keys, Snek};

verus! {

/// The body never shrinks: across one tick the length is unchanged when no
/// growth was pending and no food was under the head, and grows by exactly
/// one otherwise — never by more, and each eaten food item adds exactly
/// one segment.
pub proof fn lemma_length_monotone(
    old_body: Seq<Segment>,
    new_body: Seq<Segment>,
    d: Direction,
    grew: bool,
)
    requires
        advances(old_body, new_body, d, grew),
    ensures
        new_body.len() >= old_body.len(),
        grew ==> new_body.len() == old_body.len() + 1,
        !grew ==> new_body.len() == old_body.len(),
{
}

/// Exactly one segment is colored as head at any time: the one at index 0.
pub proof fn lemma_one_head(s: Snek)
    requires
        s.wf(),
    ensures
        forall|i: int|
            0 <= i < s.body@.len() ==> ((#[trigger] s.body@[i].color == HEAD_COLOR) <==> i == 0),
{
}

/// The inputs on which one tick's key resolution can reverse a vertical
/// heading: the opposite vertical key together with a sideways key lets
/// the heading turn sideways and then complete the reversal, because the
/// keys are checked in the order left, right, up, down. These are the only
/// inputs on which the heading reverses.
pub open spec fn sideways_reversal(d: Direction, k: Keys) -> bool {
    ||| (d == Direction::Up && k.down && !k.up && (k.left || k.right))
    ||| (d == Direction::Down && k.up && (k.left || k.right))
}

/// The heading never instantaneously reverses: on every input other than
/// the sideways double-key presses above — in particular whenever at most
/// one key is pressed — the resolved heading is not the opposite of the
/// old one. A heading of right can never become left in one tick, nor left
/// become right, whatever keys are pressed.
pub proof fn lemma_no_reversal(d: Direction, k: Keys)
    requires
        !sideways_reversal(d, k),
    ensures
        resolve_direction(d, k) != d.opposite(),
{
}

/// The reversal guard is exact: on the excluded inputs the heading does
/// reverse, so the precondition of `lemma_no_reversal` leaves out nothing
/// more than the genuine counterexamples.
pub proof fn lemma_sideways_reversal_reverses(d: Direction, k: Keys)
    requires
        sideways_reversal(d, k),
    ensures
        resolve_direction(d, k) == d.opposite(),
{
}

/// Each segment trails its predecessor by one step along `d`: the body
/// lies on a straight line behind the head.
pub open spec fn trailing(body: Seq<Segment>, d: Direction) -> bool {
    forall|i: int|
        0 <= i < body.len() - 1 ==> stepped(body[i + 1].position, d, #[trigger] body[i].position)
}

/// A quiet tick is a pure translation: when nothing grows and the body
/// lies on a straight line along its heading, one tick moves every
/// segment by the same directional delta, keeps the length, and leaves
/// the body on a straight line again — so repeated quiet ticks keep
/// translating the whole body.
pub proof fn lemma_quiet_tick_translates(
    old_body: Seq<Segment>,
    new_body: Seq<Segment>,
    d: Direction,
)
    requires
        old_body.len() >= 1,
        advances(old_body, new_body, d, false),
        trailing(old_body, d),
    ensures
        new_body.len() == old_body.len(),
        forall|i: int|
            0 <= i < new_body.len() ==> stepped(
                old_body[i].position,
                d,
                #[trigger] new_body[i].position,
            ),
        trailing(new_body, d),
{
    assert forall|i: int| 0 <= i < new_body.len() implies stepped(
        old_body[i].position,
        d,
        #[trigger] new_body[i].position,
    ) by {
        if i >= 1 {
            assert(new_body[i].position == old_body[i - 1].position);
            assert(stepped(old_body[i].position, d, old_body[i - 1].position));
        }
    }
    assert forall|i: int| 0 <= i < new_body.len() - 1 implies stepped(
        new_body[i + 1].position,
        d,
        #[trigger] new_body[i].position,
    ) by {
        assert(new_body[i + 1].position == old_body[i].position);
    }
}

} // verus!
