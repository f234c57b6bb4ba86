//! Headings of the snake and the keys that request them.

use vstd::prelude::*;
use vstd::std_specs::cmp::PartialEqSpecImpl;

verus! {

/// A heading: one of the four cardinal directions, or none. Each stands for
/// the step it makes per tick, with `y` growing downwards.
#[derive(Debug, Clone, Copy)]
pub enum Direction {
    Up,
    Down,
    Left,
    Right,
    Still,
}

/// One row up per tick.
pub const DIRECTION_UP: Direction = Direction::Up;

/// One row down per tick.
pub const DIRECTION_DOWN: Direction = Direction::Down;

/// One column to the left per tick.
pub const DIRECTION_LEFT: Direction = Direction::Left;

/// One column to the right per tick.
pub const DIRECTION_RIGHT: Direction = Direction::Right;

/// No movement: what a key that is no arrow asks for.
pub const DIRECTION_NONE: Direction = Direction::Still;

impl Direction {
    /// The step along the horizontal axis: -1, 0 or 1.
    pub open spec fn dx(self) -> int {
        match self {
            Direction::Left => -1,
            Direction::Right => 1,
            _ => 0,
        }
    }

    /// The step along the vertical axis: -1, 0 or 1.
    pub open spec fn dy(self) -> int {
        match self {
            Direction::Up => -1,
            Direction::Down => 1,
            _ => 0,
        }
    }

    /// Whether this heading is the exact reverse of `other`: it moves, and
    /// it undoes the step of `other` on both axes.
    pub open spec fn reverses(self, other: Direction) -> bool {
        self != Direction::Still && self.dx() == -other.dx() && self.dy() == -other.dy()
    }

    /// The heading held after `requested` is asked of a snake heading
    /// `self`. A request for no heading is ignored. Any other is taken only
    /// if it moves along an axis on which the snake currently stands still.
    pub open spec fn turned(self, requested: Direction) -> Direction {
        if requested == Direction::Still {
            self
        } else if self.dx() == 0 && requested.dx() != 0 {
            requested
        } else if self.dy() == 0 && requested.dy() != 0 {
            requested
        } else {
            self
        }
    }

    /// The heading reached from `self` by asking for each key of `keys` in
    /// turn.
    pub open spec fn turned_all(self, keys: Seq<Key>) -> Direction
        decreases keys.len(),
    {
        if keys.len() == 0 {
            self
        } else {
            self.turned_all(keys.drop_last()).turned(keys.last().direction())
        }
    }

    /// The step along the horizontal axis.
    pub fn x(&self) -> (step: i8)
        ensures
            step == self.dx(),
    {
        match self {
            Direction::Left => -1,
            Direction::Right => 1,
            _ => 0,
        }
    }

    /// The step along the vertical axis.
    pub fn y(&self) -> (step: i8)
        ensures
            step == self.dy(),
    {
        match self {
            Direction::Up => -1,
            Direction::Down => 1,
            _ => 0,
        }
    }
}

impl PartialEq for Direction {
    /// Two headings are equal when they make the same step on both axes.
    fn eq(&self, other: &Self) -> (same: bool) {
        self.x() == other.x() && self.y() == other.y()
    }
}

impl PartialEqSpecImpl for Direction {
    open spec fn obeys_eq_spec() -> bool {
        true
    }

    open spec fn eq_spec(&self, other: &Self) -> bool {
        *self == *other
    }
}

/// A key press, as far as the game tells keys apart.
#[derive(Debug, Clone, Copy, PartialEq, Eq)]
pub enum Key {
    Up,
    Down,
    Left,
    Right,
    Other,
}

impl Key {
    /// The heading that the key asks for; none for a key that is no arrow.
    pub open spec fn direction(self) -> Direction {
        match self {
            Key::Up => DIRECTION_UP,
            Key::Down => DIRECTION_DOWN,
            Key::Left => DIRECTION_LEFT,
            Key::Right => DIRECTION_RIGHT,
            Key::Other => DIRECTION_NONE,
        }
    }
}

/// A request never turns the snake around: the heading held after it is not
/// the reverse of the heading held before.
pub proof fn lemma_turn_never_reverses(held: Direction, requested: Direction)
    ensures
        !held.turned(requested).reverses(held),
{
}

/// However many keys are pressed and in whatever order, no single one of
/// them turns the snake around: the heading held after each key is not the
/// reverse of the heading held just before that key.
pub proof fn lemma_keys_never_reverse(start: Direction, keys: Seq<Key>)
    ensures
        forall|n: int|
            0 <= n < keys.len() ==> !(#[trigger] start.turned_all(keys.take(n + 1))).reverses(
                start.turned_all(keys.take(n)),
            ),
{
    assert forall|n: int| 0 <= n < keys.len() implies !(#[trigger] start.turned_all(
        keys.take(n + 1),
    )).reverses(start.turned_all(keys.take(n))) by {
        let upto = keys.take(n + 1);
        assert(upto.drop_last() == keys.take(n));
        assert(upto.last() == keys[n]);
        lemma_turn_never_reverses(start.turned_all(keys.take(n)), keys[n].direction());
    }
}

} // verus!
