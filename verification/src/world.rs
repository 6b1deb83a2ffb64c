//! The authoritative game state and the movement tick that advances it.

use vstd::prelude::*;

use crate::direction::{chosen_direction, input_direction, requested_facing, Direction};
use crate::grid::{in_bounds, in_bounds_cell, in_bounds_pt, pt, Cell};

verus! {

/// The whole mutable game state: the snake's body segments (index 0 is the
/// head), the head's facing, the live food cells, and the cell most
/// recently vacated by the tail on a movement tick.
pub struct World {
    pub segments: Vec<Cell>,
    pub facing: Direction,
    pub foods: Vec<Cell>,
    pub last_tail: Option<Cell>,
}

/// The point one step away from `p` in direction `d`. The vertical axis
/// grows upward: Up increases y, Down decreases it.
pub open spec fn step_pt(p: (int, int), d: Direction) -> (int, int) {
    match d {
        Direction::Left => (p.0 - 1, p.1),
        Direction::Right => (p.0 + 1, p.1),
        Direction::Up => (p.0, p.1 + 1),
        Direction::Down => (p.0, p.1 - 1),
    }
}

/// The cell one step away from `c` in direction `d`; meaningful when the
/// step stays within the i32 range.
pub open spec fn step_cell_spec(c: Cell, d: Direction) -> Cell {
    match d {
        Direction::Left => Cell { x: (c.x - 1) as i32, y: c.y },
        Direction::Right => Cell { x: (c.x + 1) as i32, y: c.y },
        Direction::Up => Cell { x: c.x, y: (c.y + 1) as i32 },
        Direction::Down => Cell { x: c.x, y: (c.y - 1) as i32 },
    }
}

/// The points of a sequence of cells.
pub open spec fn points(s: Seq<Cell>) -> Seq<(int, int)> {
    s.map_values(|c: Cell| pt(c))
}

/// One lock-step shift of the body: the head moves one step in direction
/// `d`, and every trailing segment takes the point its predecessor held.
pub open spec fn shift_pts(s: Seq<(int, int)>, d: Direction) -> Seq<(int, int)>
    recommends
        s.len() >= 1,
{
    Seq::new(
        s.len(),
        |i: int|
            if i == 0 {
                step_pt(s[0], d)
            } else {
                s[i - 1]
            },
    )
}

/// The body after `n` lock-step shifts in direction `d`.
pub open spec fn shift_n(s: Seq<(int, int)>, d: Direction, n: nat) -> Seq<(int, int)>
    decreases n,
{
    if n == 0 {
        s
    } else {
        shift_pts(shift_n(s, d, (n - 1) as nat), d)
    }
}

/// The point `n` steps away from `p` in direction `d`.
pub open spec fn offset_pt(p: (int, int), d: Direction, n: int) -> (int, int) {
    match d {
        Direction::Left => (p.0 - n, p.1),
        Direction::Right => (p.0 + n, p.1),
        Direction::Up => (p.0, p.1 + n),
        Direction::Down => (p.0, p.1 - n),
    }
}

/// Over any run of shifts with a fixed facing, the head moves exactly one
/// point per shift in that direction — after `n` shifts it sits `n` points
/// away — and on each shift every trailing segment takes the point its
/// predecessor held before that shift.
pub proof fn lemma_straight_run(s: Seq<(int, int)>, d: Direction, n: nat)
    requires
        s.len() >= 1,
    ensures
        shift_n(s, d, n).len() == s.len(),
        shift_n(s, d, n)[0] == offset_pt(s[0], d, n as int),
        n >= 1 ==> shift_n(s, d, n)[0] == step_pt(shift_n(s, d, (n - 1) as nat)[0], d),
        n >= 1 ==> forall|i: int|
            1 <= i < s.len() ==> #[trigger] shift_n(s, d, n)[i] == shift_n(s, d, (n - 1) as nat)[i
                - 1],
    decreases n,
{
    if n >= 1 {
        lemma_straight_run(s, d, (n - 1) as nat);
    }
}

/// Whether the head's point coincides with any other segment's point.
pub open spec fn self_collision(s: Seq<(int, int)>) -> bool {
    exists|i: int| 1 <= i < s.len() && #[trigger] s[i] == s[0]
}

/// Whether a body that has just shifted in direction `d` ends the tick in
/// game over: the head left the arena, or it bit another segment.
pub open spec fn tick_game_over(s: Seq<(int, int)>, d: Direction) -> bool
    recommends
        s.len() >= 1,
{
    let moved = shift_pts(s, d);
    !in_bounds_pt(moved[0]) || self_collision(moved)
}

/// The food cells left after the head eats at `head`: every food at that
/// cell is removed, the rest keep their order.
pub open spec fn foods_after_eating(foods: Seq<Cell>, head: Cell) -> Seq<Cell> {
    foods.filter(|c: Cell| c != head)
}

/// The fixed starting cell of the head.
pub open spec fn head_start() -> Cell {
    Cell { x: 4, y: 5 }
}

/// The fixed starting cell of the single tail segment, directly behind the
/// head.
pub open spec fn tail_start() -> Cell {
    Cell { x: 4, y: 4 }
}

/// The fixed initial facing.
pub open spec fn facing_start() -> Direction {
    Direction::Up
}

/// The freshly reset world: exactly two segments at the fixed start, the
/// fixed initial facing, no food, and no vacated tail cell.
pub open spec fn is_reset_state(w: World) -> bool {
    &&& w.segments@.len() == 2
    &&& w.segments@[0] == head_start()
    &&& w.segments@[1] == tail_start()
    &&& w.facing == facing_start()
    &&& w.foods@.len() == 0
    &&& w.last_tail is None
}

/// A settled world, as every tick leaves it: at least two segments, all of
/// them inside the arena.
pub open spec fn settled(w: World) -> bool {
    &&& w.segments@.len() >= 2
    &&& forall|i: int| 0 <= i < w.segments@.len() ==> in_bounds_cell(#[trigger] w.segments@[i])
}

/// The cell one step away from `c` in direction `d`.
pub fn step_cell(c: Cell, d: Direction) -> (r: Cell)
    requires
        i32::MIN < c.x < i32::MAX,
        i32::MIN < c.y < i32::MAX,
    ensures
        r == step_cell_spec(c, d),
        pt(r) == step_pt(pt(c), d),
{
    match d {
        Direction::Left => Cell { x: c.x - 1, y: c.y },
        Direction::Right => Cell { x: c.x + 1, y: c.y },
        Direction::Up => Cell { x: c.x, y: c.y + 1 },
        Direction::Down => Cell { x: c.x, y: c.y - 1 },
    }
}

impl World {
    /// A fresh world in the reset state.
    pub fn new() -> (w: World)
        ensures
            is_reset_state(w),
            settled(w),
    {
        let mut segments: Vec<Cell> = Vec::new();
        segments.push(Cell { x: 4, y: 5 });
        segments.push(Cell { x: 4, y: 4 });
        World { segments, facing: Direction::Up, foods: Vec::new(), last_tail: None }
    }

    /// Discards all segments and all food and reinitializes to a
    /// two-segment snake at the fixed starting cells, facing the fixed
    /// initial direction.
    pub fn reset(&mut self)
        ensures
            is_reset_state(*final(self)),
            settled(*final(self)),
    {
        let mut segments: Vec<Cell> = Vec::new();
        segments.push(Cell { x: 4, y: 5 });
        segments.push(Cell { x: 4, y: 4 });
        self.segments = segments;
        self.facing = Direction::Up;
        self.foods = Vec::new();
        self.last_tail = None;
    }

    /// Updates the facing to `requested` unless that is the direct opposite
    /// of the current facing, in which case the request is silently
    /// ignored. Nothing else changes.
    pub fn set_facing(&mut self, requested: Direction)
        ensures
            final(self).facing == requested_facing(old(self).facing, requested),
            final(self).segments@ == old(self).segments@,
            final(self).foods@ == old(self).foods@,
            final(self).last_tail == old(self).last_tail,
    {
        if requested != self.facing.opposite() {
            self.facing = requested;
        }
    }

    /// Samples the pressed direction keys (priority Left > Down > Up >
    /// Right) and requests the chosen direction as the new facing, subject
    /// to the reversal rule.
    pub fn apply_input(&mut self, left: bool, down: bool, up: bool, right: bool)
        ensures
            final(self).facing == requested_facing(
                old(self).facing,
                chosen_direction(left, down, up, right, old(self).facing),
            ),
            final(self).segments@ == old(self).segments@,
            final(self).foods@ == old(self).foods@,
            final(self).last_tail == old(self).last_tail,
    {
        let requested = input_direction(left, down, up, right, self.facing);
        self.set_facing(requested);
    }

    /// Moves the head one cell in the current facing and shifts every
    /// trailing segment to the cell its predecessor held; the old cell of
    /// the last segment becomes the vacated tail cell. Detects no
    /// collision.
    pub fn advance(&mut self)
        requires
            old(self).segments@.len() >= 1,
            i32::MIN < old(self).segments@[0].x < i32::MAX,
            i32::MIN < old(self).segments@[0].y < i32::MAX,
        ensures
            final(self).segments@.len() == old(self).segments@.len(),
            final(self).segments@[0] == step_cell_spec(old(self).segments@[0], old(self).facing),
            points(final(self).segments@) == shift_pts(
                points(old(self).segments@),
                old(self).facing,
            ),
            pt(final(self).segments@[0]) == step_pt(
                pt(old(self).segments@[0]),
                old(self).facing,
            ),
            forall|i: int|
                1 <= i < old(self).segments@.len() ==> final(self).segments@[i] == old(
                    self,
                ).segments@[i - 1],
            final(self).last_tail == Some(
                old(self).segments@[old(self).segments@.len() - 1],
            ),
            final(self).facing == old(self).facing,
            final(self).foods@ == old(self).foods@,
    {
        let n = self.segments.len();
        let mut moved: Vec<Cell> = Vec::new();
        moved.push(step_cell(self.segments[0], self.facing));
        let mut i: usize = 1;
        while i < n
            invariant
                1 <= i <= n,
                n == self.segments@.len(),
                moved@.len() == i,
                pt(moved@[0]) == step_pt(pt(self.segments@[0]), self.facing),
                forall|j: int| 1 <= j < i ==> moved@[j] == self.segments@[j - 1],
            decreases n - i,
        {
            moved.push(self.segments[i - 1]);
            i = i + 1;
        }
        self.last_tail = Some(self.segments[n - 1]);
        self.segments = moved;
        proof {
            assert(points(self.segments@) =~= shift_pts(
                points(old(self).segments@),
                old(self).facing,
            ));
        }
    }

    /// Returns true iff the head has left the arena.
    pub fn head_out_of_bounds(&self) -> (r: bool)
        requires
            self.segments@.len() >= 1,
        ensures
            r == !in_bounds_cell(self.segments@[0]),
    {
        !in_bounds(self.segments[0])
    }

    /// Returns true iff the head's cell coincides with any other segment's
    /// cell.
    pub fn hits_self(&self) -> (r: bool)
        requires
            self.segments@.len() >= 1,
        ensures
            r == self_collision(points(self.segments@)),
    {
        let head = self.segments[0];
        let n = self.segments.len();
        let mut i: usize = 1;
        while i < n
            invariant
                1 <= i <= n,
                n == self.segments@.len(),
                head == self.segments@[0],
                forall|j: int|
                    1 <= j < i ==> #[trigger] points(self.segments@)[j] != points(
                        self.segments@,
                    )[0],
            decreases n - i,
        {
            if self.segments[i] == head {
                proof {
                    assert(points(self.segments@)[i as int] == points(self.segments@)[0]);
                }
                return true;
            }
            i = i + 1;
        }
        false
    }

    /// Removes every food whose cell equals the head's cell, keeping the
    /// rest in order, and reports whether any food was eaten.
    pub fn eat_food(&mut self) -> (ate: bool)
        requires
            old(self).segments@.len() >= 1,
        ensures
            final(self).foods@ == foods_after_eating(old(self).foods@, old(self).segments@[0]),
            ate == old(self).foods@.contains(old(self).segments@[0]),
            final(self).segments@ == old(self).segments@,
            final(self).facing == old(self).facing,
            final(self).last_tail == old(self).last_tail,
    {
        let head = self.segments[0];
        let n = self.foods.len();
        let mut kept: Vec<Cell> = Vec::new();
        let mut ate = false;
        proof {
            reveal(Seq::filter);
            assert(self.foods@.subrange(0, 0) =~= Seq::<Cell>::empty());
        }
        let mut i: usize = 0;
        while i < n
            invariant
                0 <= i <= n,
                n == self.foods@.len(),
                head == old(self).segments@[0],
                kept@ == foods_after_eating(self.foods@.subrange(0, i as int), head),
                ate == self.foods@.subrange(0, i as int).contains(head),
            decreases n - i,
        {
            let c = self.foods[i];
            if c == head {
                ate = true;
            } else {
                kept.push(c);
            }
            proof {
                reveal(Seq::filter);
                assert(self.foods@.subrange(0, i + 1).drop_last() =~= self.foods@.subrange(
                    0,
                    i as int,
                ));
                assert(self.foods@.subrange(0, i + 1).last() == self.foods@[i as int]);
                if self.foods@.subrange(0, i + 1).contains(head) {
                    let w = choose|j: int|
                        0 <= j < i + 1 && #[trigger] self.foods@.subrange(0, i + 1)[j] == head;
                    if w < i {
                        assert(self.foods@.subrange(0, i as int)[w] == head);
                    }
                }
                if self.foods@.subrange(0, i as int).contains(head) {
                    let w = choose|j: int|
                        0 <= j < i && #[trigger] self.foods@.subrange(0, i as int)[j] == head;
                    assert(self.foods@.subrange(0, i + 1)[w] == head);
                }
                if self.foods@[i as int] == head {
                    assert(self.foods@.subrange(0, i + 1)[i as int] == head);
                }
            }
            i = i + 1;
        }
        proof {
            assert(self.foods@.subrange(0, n as int) =~= self.foods@);
        }
        self.foods = kept;
        ate
    }

    /// Appends a new segment at `at`, which must be the most recently
    /// vacated tail cell; the vacated cell is consumed.
    pub fn grow(&mut self, at: Cell)
        requires
            old(self).last_tail == Some(at),
        ensures
            final(self).segments@ == old(self).segments@.push(at),
            final(self).last_tail is None,
            final(self).facing == old(self).facing,
            final(self).foods@ == old(self).foods@,
    {
        self.segments.push(at);
        self.last_tail = None;
    }

    /// One movement tick, the phases in their fixed order: the body shifts
    /// one cell in the current facing; if the new head cell left the arena
    /// or bit another segment, the whole world is reset; otherwise every
    /// food at the new head cell is eaten and at most one new segment is
    /// appended at the vacated tail cell.
    pub fn tick(&mut self)
        requires
            settled(*old(self)),
        ensures
            settled(*final(self)),
            tick_game_over(points(old(self).segments@), old(self).facing) ==> is_reset_state(
                *final(self),
            ),
            !tick_game_over(points(old(self).segments@), old(self).facing) ==> {
                let n = old(self).segments@.len() as int;
                let new_head = final(self).segments@[0];
                let ate = old(self).foods@.contains(new_head);
                &&& final(self).facing == old(self).facing
                &&& new_head == step_cell_spec(old(self).segments@[0], old(self).facing)
                &&& pt(new_head) == step_pt(pt(old(self).segments@[0]), old(self).facing)
                &&& final(self).foods@ == foods_after_eating(old(self).foods@, new_head)
                &&& (!ate ==> {
                    &&& final(self).segments@.len() == n
                    &&& final(self).last_tail == Some(old(self).segments@[n - 1])
                })
                &&& (ate ==> {
                    &&& final(self).segments@.len() == n + 1
                    &&& final(self).segments@[n] == old(self).segments@[n - 1]
                    &&& final(self).last_tail is None
                })
                &&& forall|i: int|
                    1 <= i < final(self).segments@.len() ==> final(self).segments@[i] == old(
                        self,
                    ).segments@[i - 1]
            },
    {
        self.advance();
        let game_over = self.head_out_of_bounds() || self.hits_self();
        let ate = self.eat_food();
        if ate {
            match self.last_tail {
                Some(at) => self.grow(at),
                None => {
                    proof {
                        assert(false);
                    }
                },
            }
        }
        if game_over {
            self.reset();
        }
    }
}

} // verus!
