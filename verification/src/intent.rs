//! The direction-intent buffer: raw presses are sampled every frame into a
//! candidate direction, and at most one facing change is committed per
//! movement tick, with instant 180-degree reversals filtered out.

use vstd::prelude::*;
use crate::direction::Direction;

verus! {

/// The candidate a frame's raw four-way signal yields: the pressed
/// direction, leftmost listed first when several are held, or `None` when no
/// directional input is pressed.
pub open spec fn sample_spec(left: bool, right: bool, up: bool, down: bool) -> Option<
    Direction,
> {
    if left {
        Some(Direction::Left)
    } else if right {
        Some(Direction::Right)
    } else if up {
        Some(Direction::Up)
    } else if down {
        Some(Direction::Down)
    } else {
        None
    }
}

/// Maps one frame's raw pressed/not-pressed signal to a candidate direction.
pub fn sample(left: bool, right: bool, up: bool, down: bool) -> (r: Option<Direction>)
    ensures
        r == sample_spec(left, right, up, down),
{
    if left {
        Some(Direction::Left)
    } else if right {
        Some(Direction::Right)
    } else if up {
        Some(Direction::Up)
    } else if down {
        Some(Direction::Down)
    } else {
        None
    }
}

/// The facing a movement tick runs with: the candidate, unless there is none
/// or it would reverse the current facing, in which case the facing stands.
pub open spec fn commit_spec(candidate: Option<Direction>, facing: Direction) -> Direction {
    match candidate {
        Some(d) => if d == facing.opposite_spec() {
            facing
        } else {
            d
        },
        None => facing,
    }
}

/// Commits at most one facing change for this movement tick. A candidate
/// equal to `opposite(facing)` is rejected, so the result is never the
/// reverse of `facing` and an instant 180-degree self-collision cannot
/// happen.
pub fn commit(candidate: Option<Direction>, facing: Direction) -> (r: Direction)
    ensures
        r == commit_spec(candidate, facing),
        r != facing.opposite_spec(),
{
    match candidate {
        Some(d) => {
            if d == facing.opposite() {
                facing
            } else {
                d
            }
        },
        None => facing,
    }
}

} // verus!
