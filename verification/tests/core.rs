use snake_core::direction::{input_direction, Direction};
use snake_core::grid::{in_bounds, Cell};
use snake_core::world::{step_cell, World};

fn cell(x: i32, y: i32) -> Cell {
    Cell { x, y }
}

fn assert_reset(w: &World) {
    assert_eq!(w.segments.len(), 2);
    assert_eq!(w.segments[0], cell(4, 5));
    assert_eq!(w.segments[1], cell(4, 4));
    assert_eq!(w.facing, Direction::Up);
    assert_eq!(w.foods.len(), 0);
    assert!(w.last_tail.is_none());
}

#[test]
fn new_world_is_reset_state() {
    let w = World::new();
    assert_reset(&w);
}

#[test]
fn reset_reinitializes_everything() {
    let mut w = World::new();
    w.foods.push(cell(1, 1));
    w.tick();
    w.reset();
    assert_reset(&w);
}

#[test]
fn opposite_pairs() {
    assert_eq!(Direction::Left.opposite(), Direction::Right);
    assert_eq!(Direction::Right.opposite(), Direction::Left);
    assert_eq!(Direction::Up.opposite(), Direction::Down);
    assert_eq!(Direction::Down.opposite(), Direction::Up);
}

#[test]
fn in_bounds_edges() {
    assert!(in_bounds(cell(0, 0)));
    assert!(in_bounds(cell(9, 9)));
    assert!(!in_bounds(cell(-1, 5)));
    assert!(!in_bounds(cell(10, 0)));
    assert!(!in_bounds(cell(0, 10)));
    assert!(!in_bounds(cell(0, -1)));
}

#[test]
fn step_cell_moves_one_unit() {
    assert_eq!(step_cell(cell(4, 5), Direction::Left), cell(3, 5));
    assert_eq!(step_cell(cell(4, 5), Direction::Right), cell(5, 5));
    assert_eq!(step_cell(cell(4, 5), Direction::Up), cell(4, 6));
    assert_eq!(step_cell(cell(4, 5), Direction::Down), cell(4, 4));
}

#[test]
fn facing_request_granted_unless_reversal() {
    let mut w = World::new();
    w.set_facing(Direction::Left);
    assert_eq!(w.facing, Direction::Left);
    // The direct opposite of the new facing is silently ignored.
    w.set_facing(Direction::Right);
    assert_eq!(w.facing, Direction::Left);
    w.set_facing(Direction::Down);
    assert_eq!(w.facing, Direction::Down);
}

#[test]
fn reversal_of_initial_facing_ignored() {
    let mut w = World::new();
    w.set_facing(Direction::Down);
    assert_eq!(w.facing, Direction::Up);
}

#[test]
fn input_priority_left_down_up_right() {
    let cur = Direction::Up;
    assert_eq!(input_direction(true, true, true, true, cur), Direction::Left);
    assert_eq!(input_direction(false, true, true, true, cur), Direction::Down);
    assert_eq!(input_direction(false, false, true, true, cur), Direction::Up);
    assert_eq!(input_direction(false, false, false, true, cur), Direction::Right);
    assert_eq!(input_direction(false, false, false, false, cur), cur);
}

#[test]
fn apply_input_samples_and_debounces() {
    let mut w = World::new();
    // Down is the direct opposite of the initial facing Up: ignored.
    w.apply_input(false, true, false, false);
    assert_eq!(w.facing, Direction::Up);
    w.apply_input(true, false, false, false);
    assert_eq!(w.facing, Direction::Left);
    // No key pressed: the facing is retained.
    w.apply_input(false, false, false, false);
    assert_eq!(w.facing, Direction::Left);
}

#[test]
fn straight_tick_moves_head_and_shifts_tail() {
    // Arena 10x10, head (4,5), tail (4,4), facing Up: one tick moves the
    // head to (4,6) and the tail to (4,5); no collision, no growth.
    let mut w = World::new();
    w.tick();
    assert_eq!(w.segments.len(), 2);
    assert_eq!(w.segments[0], cell(4, 6));
    assert_eq!(w.segments[1], cell(4, 5));
    assert_eq!(w.foods.len(), 0);
    assert_eq!(w.facing, Direction::Up);
    assert_eq!(w.last_tail, Some(cell(4, 4)));
}

#[test]
fn straight_run_moves_one_cell_per_tick() {
    let mut w = World::new();
    for k in 1..=4 {
        w.tick();
        assert_eq!(w.segments[0], cell(4, 5 + k));
        assert_eq!(w.segments[1], cell(4, 4 + k));
    }
}

#[test]
fn advance_alone_shifts_without_collision_checks() {
    let mut w = World::new();
    w.advance();
    assert_eq!(w.segments[0], cell(4, 6));
    assert_eq!(w.segments[1], cell(4, 5));
    assert_eq!(w.last_tail, Some(cell(4, 4)));
}

#[test]
fn out_of_bounds_left_resets() {
    // Head at (0,5) facing Left: the new head cell (-1,5) is out of
    // bounds, and the next settled state is the reset state.
    let mut w = World {
        segments: vec![cell(0, 5), cell(1, 5)],
        facing: Direction::Left,
        foods: vec![],
        last_tail: None,
    };
    w.tick();
    assert_reset(&w);
}

#[test]
fn out_of_bounds_right_resets() {
    let mut w = World {
        segments: vec![cell(9, 5), cell(8, 5)],
        facing: Direction::Right,
        foods: vec![],
        last_tail: None,
    };
    w.tick();
    assert_reset(&w);
}

#[test]
fn out_of_bounds_top_resets() {
    let mut w = World {
        segments: vec![cell(4, 9), cell(4, 8)],
        facing: Direction::Up,
        foods: vec![],
        last_tail: None,
    };
    w.tick();
    assert_reset(&w);
}

#[test]
fn out_of_bounds_bottom_resets() {
    let mut w = World {
        segments: vec![cell(4, 0), cell(4, 1)],
        facing: Direction::Down,
        foods: vec![],
        last_tail: None,
    };
    w.tick();
    assert_reset(&w);
}

#[test]
fn self_bite_resets() {
    // A three-segment snake where the next advance puts the head onto the
    // current cell of segment index 2. The two trailing segments overlap,
    // as they transiently may right after an eat, so the bitten cell is
    // still occupied after the shift: self-collision, reset state.
    let mut w = World {
        segments: vec![cell(5, 5), cell(5, 6), cell(5, 6)],
        facing: Direction::Up,
        foods: vec![],
        last_tail: None,
    };
    w.tick();
    assert_reset(&w);
}

#[test]
fn moving_into_vacated_tail_cell_is_safe() {
    // The collision check compares the head against the other segments'
    // cells after the shift, so the cell the tail just vacated is free.
    let mut w = World {
        segments: vec![cell(4, 5), cell(4, 4)],
        facing: Direction::Down,
        foods: vec![],
        last_tail: None,
    };
    w.tick();
    assert_eq!(w.segments.len(), 2);
    assert_eq!(w.segments[0], cell(4, 4));
    assert_eq!(w.segments[1], cell(4, 5));
}

#[test]
fn eating_grows_at_vacated_tail_cell() {
    // Food at the head's new cell: the food is removed and exactly one
    // segment is appended at the cell the tail vacated this tick.
    let mut w = World::new();
    w.foods.push(cell(4, 6));
    w.tick();
    assert_eq!(w.segments.len(), 3);
    assert_eq!(w.segments[0], cell(4, 6));
    assert_eq!(w.segments[1], cell(4, 5));
    assert_eq!(w.segments[2], cell(4, 4));
    assert_eq!(w.foods.len(), 0);
    assert!(w.last_tail.is_none());
}

#[test]
fn two_foods_on_one_cell_grant_one_growth() {
    // Both foods at the head's new cell are removed, but only one growth
    // is applied per tick.
    let mut w = World::new();
    w.foods.push(cell(4, 6));
    w.foods.push(cell(4, 6));
    w.tick();
    assert_eq!(w.segments.len(), 3);
    assert_eq!(w.foods.len(), 0);
}

#[test]
fn food_elsewhere_is_kept() {
    let mut w = World::new();
    w.foods.push(cell(9, 9));
    w.foods.push(cell(4, 6));
    w.foods.push(cell(0, 0));
    w.tick();
    assert_eq!(w.segments.len(), 3);
    assert_eq!(w.foods, vec![cell(9, 9), cell(0, 0)]);
}

#[test]
fn growth_persists_on_later_ticks() {
    let mut w = World::new();
    w.foods.push(cell(4, 6));
    w.tick();
    w.tick();
    assert_eq!(w.segments.len(), 3);
    assert_eq!(w.segments[0], cell(4, 7));
    assert_eq!(w.segments[1], cell(4, 6));
    assert_eq!(w.segments[2], cell(4, 5));
}

#[test]
fn grow_appends_and_consumes_vacated_cell() {
    let mut w = World::new();
    w.tick();
    assert_eq!(w.last_tail, Some(cell(4, 4)));
    w.grow(cell(4, 4));
    assert_eq!(w.segments.len(), 3);
    assert_eq!(w.segments[2], cell(4, 4));
    assert!(w.last_tail.is_none());
}

#[test]
fn collision_checks_report() {
    let w = World {
        segments: vec![cell(-1, 5), cell(0, 5)],
        facing: Direction::Left,
        foods: vec![],
        last_tail: None,
    };
    assert!(w.head_out_of_bounds());
    assert!(!w.hits_self());
    let v = World {
        segments: vec![cell(3, 3), cell(3, 4), cell(3, 3)],
        facing: Direction::Up,
        foods: vec![],
        last_tail: None,
    };
    assert!(!v.head_out_of_bounds());
    assert!(v.hits_self());
}

#[test]
fn eat_food_removes_all_matches_in_order() {
    let mut w = World {
        segments: vec![cell(2, 2), cell(2, 1)],
        facing: Direction::Up,
        foods: vec![cell(2, 2), cell(7, 7), cell(2, 2), cell(1, 1)],
        last_tail: None,
    };
    let ate = w.eat_food();
    assert!(ate);
    assert_eq!(w.foods, vec![cell(7, 7), cell(1, 1)]);
    let ate_again = w.eat_food();
    assert!(!ate_again);
    assert_eq!(w.foods, vec![cell(7, 7), cell(1, 1)]);
}

#[test]
fn game_over_also_clears_food() {
    let mut w = World {
        segments: vec![cell(0, 5), cell(1, 5)],
        facing: Direction::Left,
        foods: vec![cell(3, 3), cell(7, 2)],
        last_tail: None,
    };
    w.tick();
    assert_reset(&w);
}
