use snake_sim::body::SnakeBody;
use snake_sim::food::{SPAWN_RETRIES, check_consumption, choose_spawn_cell, roll_cell};
use snake_sim::grid::{Cell, GridWorld};

fn grid_50() -> GridWorld {
    GridWorld { width: 50, height: 50 }
}

fn body_of(cells: &[(i32, i32)]) -> SnakeBody {
    let mut segments: Vec<Cell> = Vec::new();
    for &(x, y) in cells {
        segments.push(Cell { x, y });
    }
    SnakeBody { segments }
}

#[test]
fn roll_cell_reduces_rolls_into_the_grid() {
    let g = grid_50();
    assert_eq!(roll_cell(g, 26, 25), Cell { x: 26, y: 25 });
    assert_eq!(roll_cell(g, 50, 51), Cell { x: 0, y: 1 });
    assert_eq!(roll_cell(g, u32::MAX, 0), Cell { x: (u32::MAX % 50) as i32, y: 0 });
}

#[test]
fn first_free_roll_wins() {
    let g = grid_50();
    let body = body_of(&[(10, 10), (9, 10)]);
    let rolls = vec![(7u32, 8u32), (1u32, 2u32)];
    assert_eq!(choose_spawn_cell(g, &body, &rolls), Some(Cell { x: 7, y: 8 }));
}

#[test]
fn occupied_roll_is_rerolled() {
    let g = grid_50();
    let body = body_of(&[(10, 10), (9, 10)]);
    let rolls = vec![(10u32, 10u32), (9u32, 10u32), (1u32, 2u32)];
    assert_eq!(choose_spawn_cell(g, &body, &rolls), Some(Cell { x: 1, y: 2 }));
}

#[test]
fn exhausted_rolls_skip_the_spawn_cycle() {
    let g = grid_50();
    let body = body_of(&[(10, 10), (9, 10)]);
    let rolls = vec![(10u32, 10u32); SPAWN_RETRIES];
    assert_eq!(choose_spawn_cell(g, &body, &rolls), None);
}

#[test]
fn no_rolls_no_food() {
    let g = grid_50();
    let body = body_of(&[(10, 10), (9, 10)]);
    let rolls: Vec<(u32, u32)> = Vec::new();
    assert_eq!(choose_spawn_cell(g, &body, &rolls), None);
}

#[test]
fn consumption_is_cell_equality() {
    assert!(check_consumption(Cell { x: 3, y: 4 }, Cell { x: 3, y: 4 }));
    assert!(!check_consumption(Cell { x: 3, y: 4 }, Cell { x: 4, y: 3 }));
}
