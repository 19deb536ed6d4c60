use snake_sim::body::{SnakeBody, self_collision};
use snake_sim::direction::Direction;
use snake_sim::grid::{Cell, GridWorld};

fn grid_50() -> GridWorld {
    GridWorld { width: 50, height: 50 }
}

fn body_of(cells: &[(i32, i32)]) -> SnakeBody {
    let mut segments: Vec<Cell> = Vec::new();
    for &(x, y) in cells {
        segments.push(Cell { x, y });
    }
    SnakeBody { segments }
}

#[test]
fn initial_body_sits_at_center() {
    let b = SnakeBody::initial(grid_50());
    assert_eq!(b.segments.len(), 2);
    assert_eq!(b.segments[0], Cell { x: 25, y: 25 });
    assert_eq!(b.segments[1], Cell { x: 24, y: 25 });
}

#[test]
fn advance_keeps_length() {
    let mut b = body_of(&[(10, 10), (9, 10), (8, 10)]);
    b.advance(Direction::Right, grid_50());
    assert_eq!(b.segments.len(), 3);
}

#[test]
fn advance_shifts_segments_by_one() {
    // Each non-head segment takes the pre-move cell of its predecessor.
    let mut b = body_of(&[(10, 10), (9, 10), (9, 9)]);
    let freed = b.advance(Direction::Up, grid_50());
    assert_eq!(b.segments[0], Cell { x: 10, y: 11 });
    assert_eq!(b.segments[1], Cell { x: 10, y: 10 });
    assert_eq!(b.segments[2], Cell { x: 9, y: 10 });
    assert_eq!(freed, Cell { x: 9, y: 9 });
}

#[test]
fn advance_twice_lags_the_tail() {
    let g = grid_50();
    let mut b = body_of(&[(10, 10), (9, 10)]);
    b.advance(Direction::Right, g);
    b.advance(Direction::Up, g);
    assert_eq!(b.segments[0], Cell { x: 11, y: 11 });
    assert_eq!(b.segments[1], Cell { x: 11, y: 10 });
}

#[test]
fn grow_appends_supplied_cell() {
    let mut b = body_of(&[(10, 10), (9, 10)]);
    b.grow(Cell { x: 8, y: 10 });
    assert_eq!(b.segments.len(), 3);
    assert_eq!(b.segments[2], Cell { x: 8, y: 10 });
    assert_eq!(b.segments[0], Cell { x: 10, y: 10 });
    assert_eq!(b.segments[1], Cell { x: 9, y: 10 });
}

#[test]
fn occupies_finds_each_segment() {
    let b = body_of(&[(1, 2), (3, 4)]);
    assert!(b.occupies(Cell { x: 1, y: 2 }));
    assert!(b.occupies(Cell { x: 3, y: 4 }));
    assert!(!b.occupies(Cell { x: 5, y: 6 }));
}

#[test]
fn self_collision_on_duplicate_head_cell() {
    let b = body_of(&[(5, 5), (4, 5), (5, 5)]);
    assert!(self_collision(&b));
}

#[test]
fn no_self_collision_on_distinct_cells() {
    let b = body_of(&[(5, 5), (4, 5), (3, 5)]);
    assert!(!self_collision(&b));
}
