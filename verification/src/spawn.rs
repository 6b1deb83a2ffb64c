//! Food placement: a fresh pseudo-random generator is seeded from an opaque
//! external seed on every spawn, and a new food cell is drawn uniformly
//! inside the arena. No uniqueness check is made against existing food or
//! the snake: a spawn may overlap either.

use vstd::prelude::*;

use rand::rngs::SmallRng;
use rand::Rng;
use rand::SeedableRng;

use crate::grid::{in_bounds_cell, Cell, ARENA_HEIGHT, ARENA_WIDTH};
use crate::world::World;

verus! {

#[verifier::external_type_specification]
#[verifier::external_body]
pub struct ExSmallRng(SmallRng);

/// Relies on rand::rngs::SmallRng::seed_from_u64: builds a small
/// pseudo-random generator from a 64-bit seed; never fails.
#[verifier::external_body]
fn rng_from_seed(seed: u64) -> SmallRng {
    SmallRng::seed_from_u64(seed)
}

/// Relies on rand::Rng::random_range on the range `0..bound`: returns a
/// uniformly drawn value of that range, and panics only when the range is
/// empty.
#[verifier::external_body]
fn rand_below(rng: &mut SmallRng, bound: u32) -> (r: u32)
    requires
        bound > 0,
    ensures
        r < bound,
{
    rng.random_range(0..bound)
}

impl World {
    /// Seeds a fresh generator from `seed`, draws two independent uniform
    /// coordinates inside the arena, and appends a new food at that cell.
    /// Nothing else changes.
    pub fn spawn_food(&mut self, seed: u32)
        ensures
            final(self).foods@.len() == old(self).foods@.len() + 1,
            forall|i: int|
                0 <= i < old(self).foods@.len() ==> final(self).foods@[i] == old(self).foods@[i],
            in_bounds_cell(final(self).foods@.last()),
            final(self).segments@ == old(self).segments@,
            final(self).facing == old(self).facing,
            final(self).last_tail == old(self).last_tail,
    {
        let mut rng = rng_from_seed(seed as u64);
        let x = rand_below(&mut rng, ARENA_WIDTH);
        let y = rand_below(&mut rng, ARENA_HEIGHT);
        self.foods.push(Cell { x: x as i32, y: y as i32 });
    }
}

} // verus!
