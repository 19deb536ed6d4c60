//! Movement directions and the input-intent rules: which raw press becomes a
//! candidate direction, and which candidate is committed at a movement tick.

use vstd::prelude::*;

verus! {

/// One of the four directions the snake can travel in.
#[derive(Clone, Copy, PartialEq, Eq, Structural, Debug)]
pub enum Direction {
    Left,
    Right,
    Up,
    Down,
}

impl Direction {
    /// The direction of reverse travel.
    pub open spec fn opposite_spec(self) -> Direction {
        match self {
            Direction::Left => Direction::Right,
            Direction::Right => Direction::Left,
            Direction::Up => Direction::Down,
            Direction::Down => Direction::Up,
        }
    }

    pub fn opposite(self) -> (r: Direction)
        ensures
            r == self.opposite_spec(),
    {
        match self {
            Direction::Left => Direction::Right,
            Direction::Right => Direction::Left,
            Direction::Up => Direction::Down,
            Direction::Down => Direction::Up,
        }
    }
}

impl Default for Direction {
    /// The snake starts out travelling right.
    fn default() -> (r: Direction)
        ensures
            r == Direction::Right,
    {
        Direction::Right
    }
}

/// Reversal is an involution: turning around twice is no turn at all.
pub proof fn lemma_opposite_involution(d: Direction)
    ensures
        d.opposite_spec().opposite_spec() == d,
{
}

/// No direction is its own reverse.
pub proof fn lemma_opposite_irreflexive(d: Direction)
    ensures
        d.opposite_spec() != d,
{
}

} // verus!
