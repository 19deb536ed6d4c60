//! The toroidal grid: cells, bounds, and the single-step coordinate wrap that
//! stands in for wall collision (running off one edge re-enters from the
//! opposite edge).

use vstd::prelude::*;
use crate::direction::Direction;

verus! {

/// One square of the grid, addressed by column and row.
#[derive(Clone, Copy, PartialEq, Eq, Structural, Debug)]
pub struct Cell {
    pub x: i32,
    pub y: i32,
}

/// The fixed-size toroidal coordinate space. It holds no mutable state;
/// the dimensions are configuration supplied at construction.
#[derive(Clone, Copy, PartialEq, Eq, Structural, Debug)]
pub struct GridWorld {
    pub width: i32,
    pub height: i32,
}

/// Maps a coordinate that is at most one step out of range back into
/// `[0, dimension)`. A single-step wrap suffices because movement changes a
/// coordinate by exactly one unit per tick.
pub open spec fn wrap_spec(coordinate: int, dimension: int) -> int {
    if coordinate < 0 {
        dimension - 1
    } else if coordinate >= dimension {
        0
    } else {
        coordinate
    }
}

impl GridWorld {
    /// A grid wide and tall enough to hold the initial two-segment snake.
    pub open spec fn wf(self) -> bool {
        2 <= self.width && 2 <= self.height
    }

    /// Whether `c` lies within the grid's bounds.
    pub open spec fn contains(self, c: Cell) -> bool {
        0 <= c.x < self.width && 0 <= c.y < self.height
    }

    /// The cell where the snake's head starts.
    pub open spec fn center_spec(self) -> Cell {
        Cell { x: (self.width / 2) as i32, y: (self.height / 2) as i32 }
    }

    pub fn center(self) -> (c: Cell)
        requires
            self.wf(),
        ensures
            c == self.center_spec(),
    {
        Cell { x: self.width / 2, y: self.height / 2 }
    }

    pub fn wrap(self, coordinate: i32, dimension: i32) -> (r: i32)
        requires
            1 <= dimension,
            -1 <= coordinate <= dimension,
        ensures
            r == wrap_spec(coordinate as int, dimension as int),
            0 <= r < dimension,
    {
        if coordinate < 0 {
            dimension - 1
        } else if coordinate >= dimension {
            0
        } else {
            coordinate
        }
    }
}

/// The column after one unit of travel in `d`, before wrapping.
pub open spec fn step_x(c: Cell, d: Direction) -> int {
    match d {
        Direction::Left => c.x - 1,
        Direction::Right => c.x + 1,
        Direction::Up => c.x as int,
        Direction::Down => c.x as int,
    }
}

/// The row after one unit of travel in `d`, before wrapping.
pub open spec fn step_y(c: Cell, d: Direction) -> int {
    match d {
        Direction::Left => c.y as int,
        Direction::Right => c.y as int,
        Direction::Up => c.y + 1,
        Direction::Down => c.y - 1,
    }
}

/// The head cell after one unit of travel in `d`, wrapped through the grid.
pub open spec fn next_head(c: Cell, d: Direction, g: GridWorld) -> Cell {
    Cell {
        x: wrap_spec(step_x(c, d), g.width as int) as i32,
        y: wrap_spec(step_y(c, d), g.height as int) as i32,
    }
}

/// The head cell after `n` wrapped unit steps in `d` from `c`.
pub open spec fn head_after(c: Cell, d: Direction, g: GridWorld, n: nat) -> Cell
    decreases n,
{
    if n == 0 {
        c
    } else {
        next_head(head_after(c, d, g, (n - 1) as nat), d, g)
    }
}

/// As long as no step crosses a boundary, `n` steps with a constant facing
/// move the head by exactly `n` units along that facing's axis and leave
/// the other axis untouched.
pub proof fn lemma_straight_run(c: Cell, d: Direction, g: GridWorld, n: nat)
    requires
        g.wf(),
        g.contains(c),
        match d {
            Direction::Left => c.x - n >= 0,
            Direction::Right => c.x + n < g.width,
            Direction::Up => c.y + n < g.height,
            Direction::Down => c.y - n >= 0,
        },
    ensures
        g.contains(head_after(c, d, g, n)),
        match d {
            Direction::Left => head_after(c, d, g, n) == (Cell { x: (c.x - n) as i32, y: c.y }),
            Direction::Right => head_after(c, d, g, n) == (Cell { x: (c.x + n) as i32, y: c.y }),
            Direction::Up => head_after(c, d, g, n) == (Cell { x: c.x, y: (c.y + n) as i32 }),
            Direction::Down => head_after(c, d, g, n) == (Cell { x: c.x, y: (c.y - n) as i32 }),
        },
    decreases n,
{
    if n > 0 {
        lemma_straight_run(c, d, g, (n - 1) as nat);
    }
}

/// At a boundary the coordinate wraps to the opposite edge — 0 past the
/// high edge, `dimension - 1` past the low edge — rather than leaving the
/// grid.
pub proof fn lemma_boundary_wrap(c: Cell, g: GridWorld)
    requires
        g.wf(),
        g.contains(c),
    ensures
        c.x == g.width - 1 ==> next_head(c, Direction::Right, g).x == 0,
        c.x == 0 ==> next_head(c, Direction::Left, g).x == g.width - 1,
        c.y == g.height - 1 ==> next_head(c, Direction::Up, g).y == 0,
        c.y == 0 ==> next_head(c, Direction::Down, g).y == g.height - 1,
{
}

/// Applies `d` as a unit displacement to `c` and wraps each axis.
pub fn advance_head(c: Cell, d: Direction, g: GridWorld) -> (r: Cell)
    requires
        g.wf(),
        g.contains(c),
    ensures
        r == next_head(c, d, g),
        g.contains(r),
{
    let (nx, ny): (i32, i32) = match d {
        Direction::Left => (c.x - 1, c.y),
        Direction::Right => (c.x + 1, c.y),
        Direction::Up => (c.x, c.y + 1),
        Direction::Down => (c.x, c.y - 1),
    };
    Cell { x: g.wrap(nx, g.width), y: g.wrap(ny, g.height) }
}

} // verus!
