//! The snake's body: an ordered sequence of occupied cells, head first, with
//! lag-following movement (each segment steps into the cell its predecessor
//! just left), tail growth, and the self-collision check.

use vstd::prelude::*;
use crate::direction::Direction;
use crate::grid::{Cell, GridWorld, next_head, advance_head};

verus! {

/// The body after one movement step: `new_head` in front, every other
/// segment holding the cell its predecessor held before the step, and the
/// old tail cell vacated.
pub open spec fn shifted(s: Seq<Cell>, new_head: Cell) -> Seq<Cell> {
    seq![new_head] + s.drop_last()
}

/// Whether the head cell coincides with any non-head segment: the sole
/// game-over condition.
pub open spec fn hits_self(s: Seq<Cell>) -> bool {
    exists|i: int| 1 <= i < s.len() && #[trigger] s[i] == s[0]
}

/// Ordered sequence of the cells the snake occupies, head at index 0.
#[derive(Debug)]
pub struct SnakeBody {
    pub segments: Vec<Cell>,
}

impl View for SnakeBody {
    type V = Seq<Cell>;

    open spec fn view(&self) -> Seq<Cell> {
        self.segments@
    }
}

impl SnakeBody {
    /// At least the head and one tail segment, all within the grid.
    pub open spec fn wf(self, g: GridWorld) -> bool {
        &&& self@.len() >= 2
        &&& forall|i: int| 0 <= i < self@.len() ==> g.contains(#[trigger] self@[i])
    }

    /// The two-segment starting body: head at the grid's center, tail one
    /// cell to its left.
    pub open spec fn initial_spec(g: GridWorld) -> Seq<Cell> {
        seq![
            g.center_spec(),
            Cell { x: (g.center_spec().x - 1) as i32, y: g.center_spec().y },
        ]
    }

    pub fn initial(g: GridWorld) -> (b: SnakeBody)
        requires
            g.wf(),
        ensures
            b@ == Self::initial_spec(g),
            b.wf(g),
    {
        let head = g.center();
        let tail = Cell { x: head.x - 1, y: head.y };
        let mut segments: Vec<Cell> = Vec::new();
        segments.push(head);
        segments.push(tail);
        let b = SnakeBody { segments };
        proof {
            assert(b@ =~= Self::initial_spec(g));
        }
        b
    }

    pub fn head(&self) -> (c: Cell)
        requires
            self@.len() >= 1,
        ensures
            c == self@[0],
    {
        self.segments[0]
    }

    pub fn len(&self) -> (n: usize)
        ensures
            n == self@.len(),
    {
        self.segments.len()
    }

    pub fn cell_at(&self, i: usize) -> (c: Cell)
        requires
            i < self@.len(),
        ensures
            c == self@[i as int],
    {
        self.segments[i]
    }

    /// Whether any segment occupies `c`.
    pub fn occupies(&self, c: Cell) -> (r: bool)
        ensures
            r == self@.contains(c),
    {
        let mut i: usize = 0;
        while i < self.segments.len()
            invariant
                i <= self@.len(),
                forall|j: int| 0 <= j < i ==> self@[j] != c,
            decreases self@.len() - i,
        {
            if self.segments[i] == c {
                proof {
                    assert(self@[i as int] == c);
                }
                return true;
            }
            i += 1;
        }
        proof {
            assert(forall|j: int| 0 <= j < self@.len() ==> self@[j] != c);
        }
        false
    }

    /// One movement step. Every segment's pre-move cell is snapshotted first;
    /// the head takes one wrapped unit step in `facing`, and each other
    /// segment takes the snapshot cell of the segment ahead of it. Returns
    /// the cell the former tail vacated — the cell a growth in the same tick
    /// attaches to.
    pub fn advance(&mut self, facing: Direction, g: GridWorld) -> (freed: Cell)
        requires
            g.wf(),
            old(self).wf(g),
        ensures
            final(self)@ == shifted(old(self)@, next_head(old(self)@[0], facing, g)),
            final(self)@.len() == old(self)@.len(),
            final(self)@[0] == next_head(old(self)@[0], facing, g),
            forall|i: int| 1 <= i < final(self)@.len() ==> final(self)@[i] == old(self)@[i - 1],
            freed == old(self)@.last(),
            final(self).wf(g),
    {
        let new_head = advance_head(self.segments[0], facing, g);
        let freed = self.segments[self.segments.len() - 1];
        let mut moved: Vec<Cell> = Vec::new();
        moved.push(new_head);
        let mut i: usize = 1;
        while i < self.segments.len()
            invariant
                1 <= i <= self@.len(),
                moved@.len() == i,
                moved@[0] == new_head,
                forall|j: int| 1 <= j < i ==> moved@[j] == self@[j - 1],
            decreases self@.len() - i,
        {
            let follower = self.segments[i - 1];
            moved.push(follower);
            i += 1;
        }
        proof {
            assert(moved@ =~= shifted(self@, new_head));
        }
        self.segments = moved;
        freed
    }

    /// Appends a new tail segment at `cell`; everything else stays put.
    pub fn grow(&mut self, cell: Cell)
        ensures
            final(self)@ == old(self)@.push(cell),
            final(self)@.len() == old(self)@.len() + 1,
            final(self)@.last() == cell,
    {
        self.segments.push(cell);
    }
}

/// Post-move self-collision check: does the new head cell equal the cell of
/// any non-head segment?
pub fn self_collision(body: &SnakeBody) -> (r: bool)
    requires
        body@.len() >= 1,
    ensures
        r == hits_self(body@),
{
    let head = body.head();
    let mut i: usize = 1;
    while i < body.len()
        invariant
            1 <= i <= body@.len(),
            head == body@[0],
            forall|j: int| 1 <= j < i ==> #[trigger] body@[j] != body@[0],
        decreases body@.len() - i,
    {
        if body.cell_at(i) == head {
            proof {
                assert(1 <= i < body@.len() && body@[i as int] == body@[0]);
            }
            return true;
        }
        i += 1;
    }
    false
}

} // verus!
