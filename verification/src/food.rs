//! Food placement and consumption. At most one food cell is active at a
//! time. Spawning draws random rolls and re-rolls, a bounded number of
//! times, when the rolled cell lies on the snake's body; if every roll is
//! occupied the spawn cycle is skipped. The roll-to-cell reduction and the
//! retry policy are verified over an explicit sequence of rolls, so tests
//! can supply deterministic sequences.

use vstd::prelude::*;
use crate::body::SnakeBody;
use crate::grid::{Cell, GridWorld};

verus! {

/// How many random rolls one spawn cycle may consume before giving up.
pub const SPAWN_RETRIES: usize = 16;

/// Relies on rand::random: draws a value of `T` from the `Standard`
/// distribution using the thread-local generator. Nothing is promised of
/// the value drawn.
pub assume_specification<T>[ rand::random::<T> ]() -> (r: T)
    where
        rand::distributions::Standard: rand::distributions::Distribution<T>,
;

/// The cell one pair of random rolls lands on: each roll is reduced to its
/// axis' range by the remainder, so the cell is always within the grid.
pub open spec fn cell_from_rolls(g: GridWorld, rx: u32, ry: u32) -> Cell {
    Cell { x: (rx as int % g.width as int) as i32, y: (ry as int % g.height as int) as i32 }
}

pub fn roll_cell(g: GridWorld, rx: u32, ry: u32) -> (c: Cell)
    requires
        g.wf(),
    ensures
        c == cell_from_rolls(g, rx, ry),
        g.contains(c),
{
    let x = (rx % (g.width as u32)) as i32;
    let y = (ry % (g.height as u32)) as i32;
    Cell { x, y }
}

/// The cell the first non-occupied roll lands on, or `None` when every roll
/// in the sequence lands on an occupied cell.
pub open spec fn chosen_cell(g: GridWorld, occupied: Seq<Cell>, rolls: Seq<(u32, u32)>) -> Option<
    Cell,
>
    decreases rolls.len(),
{
    if rolls.len() == 0 {
        None
    } else {
        let c = cell_from_rolls(g, rolls[0].0, rolls[0].1);
        if !occupied.contains(c) {
            Some(c)
        } else {
            chosen_cell(g, occupied, rolls.drop_first())
        }
    }
}

/// Runs one spawn cycle over an explicit sequence of rolls: the first roll
/// whose cell is free of the snake's body wins; if all rolls are occupied,
/// the cycle is skipped and no food appears.
pub fn choose_spawn_cell(g: GridWorld, body: &SnakeBody, rolls: &Vec<(u32, u32)>) -> (r: Option<
    Cell,
>)
    requires
        g.wf(),
    ensures
        r == chosen_cell(g, body@, rolls@),
        match r {
            Some(c) => g.contains(c) && !body@.contains(c),
            None => true,
        },
{
    let mut i: usize = 0;
    proof {
        assert(rolls@.subrange(0, rolls@.len() as int) =~= rolls@);
    }
    while i < rolls.len()
        invariant
            g.wf(),
            i <= rolls@.len(),
            chosen_cell(g, body@, rolls@) == chosen_cell(
                g,
                body@,
                rolls@.subrange(i as int, rolls@.len() as int),
            ),
        decreases rolls@.len() - i,
    {
        let ghost rest = rolls@.subrange(i as int, rolls@.len() as int);
        let rx = rolls[i].0;
        let ry = rolls[i].1;
        let c = roll_cell(g, rx, ry);
        proof {
            assert(rest[0] == rolls@[i as int]);
        }
        if !body.occupies(c) {
            proof {
                assert(chosen_cell(g, body@, rest) == Some(c));
            }
            return Some(c);
        }
        proof {
            assert(rest.drop_first() =~= rolls@.subrange(i + 1, rolls@.len() as int));
        }
        i += 1;
    }
    proof {
        assert(rolls@.subrange(rolls@.len() as int, rolls@.len() as int).len() == 0);
    }
    None
}

/// Consumption test: the head has reached the food exactly when the two
/// cells are equal.
pub fn check_consumption(head_cell: Cell, food_cell: Cell) -> (r: bool)
    ensures
        r == (head_cell == food_cell),
{
    head_cell == food_cell
}

} // verus!
