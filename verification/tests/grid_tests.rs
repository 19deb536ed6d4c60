use snake_sim::direction::Direction;
use snake_sim::grid::{Cell, GridWorld, advance_head};
use snake_sim::intent::{commit, sample};

fn grid_50() -> GridWorld {
    GridWorld { width: 50, height: 50 }
}

#[test]
fn opposite_of_each_direction() {
    assert_eq!(Direction::Left.opposite(), Direction::Right);
    assert_eq!(Direction::Right.opposite(), Direction::Left);
    assert_eq!(Direction::Up.opposite(), Direction::Down);
    assert_eq!(Direction::Down.opposite(), Direction::Up);
}

#[test]
fn opposite_is_involution() {
    for d in [Direction::Left, Direction::Right, Direction::Up, Direction::Down] {
        assert_eq!(d.opposite().opposite(), d);
    }
}

#[test]
fn default_direction_is_right() {
    assert_eq!(Direction::default(), Direction::Right);
}

#[test]
fn wrap_keeps_in_range_values() {
    let g = grid_50();
    assert_eq!(g.wrap(0, 50), 0);
    assert_eq!(g.wrap(25, 50), 25);
    assert_eq!(g.wrap(49, 50), 49);
}

#[test]
fn wrap_at_the_edges() {
    let g = grid_50();
    assert_eq!(g.wrap(50, 50), 0);
    assert_eq!(g.wrap(-1, 50), 49);
}

#[test]
fn head_wraps_right_edge() {
    // Head at (49,25) facing right on a 50-wide grid re-enters at x = 0.
    let g = grid_50();
    let c = advance_head(Cell { x: 49, y: 25 }, Direction::Right, g);
    assert_eq!(c, Cell { x: 0, y: 25 });
}

#[test]
fn head_wraps_all_four_edges() {
    let g = grid_50();
    assert_eq!(
        advance_head(Cell { x: 0, y: 7 }, Direction::Left, g),
        Cell { x: 49, y: 7 }
    );
    assert_eq!(
        advance_head(Cell { x: 7, y: 49 }, Direction::Up, g),
        Cell { x: 7, y: 0 }
    );
    assert_eq!(
        advance_head(Cell { x: 7, y: 0 }, Direction::Down, g),
        Cell { x: 7, y: 49 }
    );
}

#[test]
fn advance_head_moves_one_unit() {
    let g = grid_50();
    let c = Cell { x: 10, y: 20 };
    assert_eq!(advance_head(c, Direction::Right, g), Cell { x: 11, y: 20 });
    assert_eq!(advance_head(c, Direction::Left, g), Cell { x: 9, y: 20 });
    assert_eq!(advance_head(c, Direction::Up, g), Cell { x: 10, y: 21 });
    assert_eq!(advance_head(c, Direction::Down, g), Cell { x: 10, y: 19 });
}

#[test]
fn straight_run_moves_n_units() {
    // Ten wrapless steps right move the head by exactly ten columns.
    let g = grid_50();
    let mut c = Cell { x: 5, y: 5 };
    for _ in 0..10 {
        c = advance_head(c, Direction::Right, g);
    }
    assert_eq!(c, Cell { x: 15, y: 5 });
}

#[test]
fn commit_rejects_reversal() {
    // A candidate opposite to the facing is rejected; the facing stands.
    assert_eq!(commit(Some(Direction::Left), Direction::Right), Direction::Right);
    assert_eq!(commit(Some(Direction::Right), Direction::Left), Direction::Left);
    assert_eq!(commit(Some(Direction::Down), Direction::Up), Direction::Up);
    assert_eq!(commit(Some(Direction::Up), Direction::Down), Direction::Down);
}

#[test]
fn commit_accepts_turns_and_keeps_facing_without_candidate() {
    assert_eq!(commit(Some(Direction::Up), Direction::Right), Direction::Up);
    assert_eq!(commit(Some(Direction::Down), Direction::Right), Direction::Down);
    assert_eq!(commit(Some(Direction::Right), Direction::Right), Direction::Right);
    assert_eq!(commit(None, Direction::Up), Direction::Up);
}

#[test]
fn commit_never_returns_opposite_of_facing() {
    let dirs = [Direction::Left, Direction::Right, Direction::Up, Direction::Down];
    for facing in dirs {
        assert_ne!(commit(None, facing), facing.opposite());
        for cand in dirs {
            assert_ne!(commit(Some(cand), facing), facing.opposite());
        }
    }
}

#[test]
fn sample_picks_pressed_direction() {
    assert_eq!(sample(true, false, false, false), Some(Direction::Left));
    assert_eq!(sample(false, true, false, false), Some(Direction::Right));
    assert_eq!(sample(false, false, true, false), Some(Direction::Up));
    assert_eq!(sample(false, false, false, true), Some(Direction::Down));
    assert_eq!(sample(false, false, false, false), None);
}
