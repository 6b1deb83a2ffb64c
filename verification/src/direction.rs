//! Movement directions, the reversal rule for the head's facing, and the
//! priority order in which pressed keys pick a requested direction.

use vstd::prelude::*;

verus! {

/// A movement direction for the snake's head.
#[derive(Clone, Copy, PartialEq, Eq, Debug, Structural)]
pub enum Direction {
    Left,
    Up,
    Right,
    Down,
}

impl Direction {
    /// The direction opposite to `self`.
    pub open spec fn opposite_spec(self) -> Direction {
        match self {
            Direction::Left => Direction::Right,
            Direction::Right => Direction::Left,
            Direction::Up => Direction::Down,
            Direction::Down => Direction::Up,
        }
    }

    /// Returns the opposite direction: Left <-> Right, Up <-> Down.
    pub fn opposite(self) -> (r: Direction)
        ensures
            r == self.opposite_spec(),
    {
        match self {
            Direction::Left => Direction::Right,
            Direction::Right => Direction::Left,
            Direction::Up => Direction::Down,
            Direction::Down => Direction::Up,
        }
    }
}

/// The facing after a request: the request is granted unless it is the
/// direct opposite of the current facing, in which case it is silently
/// ignored. This is the sole debouncing rule for direction changes.
pub open spec fn requested_facing(current: Direction, requested: Direction) -> Direction {
    if requested == current.opposite_spec() {
        current
    } else {
        requested
    }
}

/// The direction chosen from the currently pressed direction keys, with
/// priority Left > Down > Up > Right; absent any press, the current facing
/// is retained.
pub open spec fn chosen_direction(
    left: bool,
    down: bool,
    up: bool,
    right: bool,
    current: Direction,
) -> Direction {
    if left {
        Direction::Left
    } else if down {
        Direction::Down
    } else if up {
        Direction::Up
    } else if right {
        Direction::Right
    } else {
        current
    }
}

/// Maps the set of pressed direction keys to the requested direction,
/// first match in the order Left, Down, Up, Right winning.
pub fn input_direction(left: bool, down: bool, up: bool, right: bool, current: Direction) -> (r:
    Direction)
    ensures
        r == chosen_direction(left, down, up, right, current),
{
    if left {
        Direction::Left
    } else if down {
        Direction::Down
    } else if up {
        Direction::Up
    } else if right {
        Direction::Right
    } else {
        current
    }
}

/// Requesting a direction and then immediately requesting its opposite
/// leaves the facing at the first request, never at its opposite: the
/// second request is rejected as a direct reversal. The first request must
/// itself not be a direct reversal of the starting facing.
pub proof fn lemma_reversal_rejected(current: Direction, d: Direction)
    requires
        d != current.opposite_spec(),
    ensures
        requested_facing(requested_facing(current, d), d.opposite_spec()) == d,
{
}

} // verus!
