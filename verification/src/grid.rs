//! Arena bounds and discrete cell coordinates.

use vstd::prelude::*;

verus! {

/// Number of columns in the arena.
pub const ARENA_WIDTH: u32 = 10;

/// Number of rows in the arena.
pub const ARENA_HEIGHT: u32 = 10;

/// A discrete arena coordinate. Equality is value equality; valid cells
/// satisfy `0 <= x < ARENA_WIDTH` and `0 <= y < ARENA_HEIGHT`.
#[derive(Clone, Copy, PartialEq, Eq, Debug, Structural)]
pub struct Cell {
    pub x: i32,
    pub y: i32,
}

/// The mathematical point a cell stands for.
pub open spec fn pt(c: Cell) -> (int, int) {
    (c.x as int, c.y as int)
}

/// Whether a point lies inside the arena.
pub open spec fn in_bounds_pt(p: (int, int)) -> bool {
    0 <= p.0 < ARENA_WIDTH && 0 <= p.1 < ARENA_HEIGHT
}

/// Whether a cell lies inside the arena.
pub open spec fn in_bounds_cell(c: Cell) -> bool {
    in_bounds_pt(pt(c))
}

/// Returns true iff `c` lies inside the arena.
pub fn in_bounds(c: Cell) -> (r: bool)
    ensures
        r == in_bounds_cell(c),
{
    0 <= c.x && c.x < ARENA_WIDTH as i32 && 0 <= c.y && c.y < ARENA_HEIGHT as i32
}

} // verus!
