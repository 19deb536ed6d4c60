//! The simulation itself: Playing/GameOver state machine, the per-tick
//! transition (commit intent, advance, self-collision, consumption, growth,
//! game-over), reset, the food-spawn cycle, and the scheduler that drives
//! the movement and food cadences from one elapsed-time entry point.

use vstd::prelude::*;
use crate::body::{SnakeBody, hits_self, shifted, self_collision};
use crate::direction::Direction;
use crate::food::{SPAWN_RETRIES, check_consumption, chosen_cell, choose_spawn_cell};
use crate::grid::{Cell, GridWorld, next_head};
use crate::intent::{commit, commit_spec};

verus! {

/// Milliseconds between movement ticks.
pub const MOVE_INTERVAL_MS: u64 = 150;

/// Milliseconds between food-spawn cycles.
pub const FOOD_INTERVAL_MS: u64 = 1500;

/// Playing or game over; the sole transitions are Playing to GameOver on
/// self-collision and GameOver to Playing on reset.
#[derive(Clone, Copy, PartialEq, Eq, Structural, Debug)]
pub enum GameState {
    Playing,
    GameOver,
}

/// The mathematical state of the simulation: what one movement tick reads
/// and rewrites.
#[verifier::ext_equal]
pub ghost struct SimView {
    /// Cells the snake occupies, head first.
    pub body: Seq<Cell>,
    /// The buffered direction intent, if a press arrived since the last tick.
    pub candidate: Option<Direction>,
    /// The facing used by the most recently completed movement tick.
    pub last_facing: Direction,
    /// The cell the tail vacated in the most recent movement tick.
    pub last_tail: Option<Cell>,
    /// The active food cell, if any.
    pub food: Option<Cell>,
    pub state: GameState,
}

/// The state every game starts from and reset restores: the two-segment
/// body at the grid's center facing right, no intent, no food, no cached
/// tail cell, Playing.
pub open spec fn initial_sim(g: GridWorld) -> SimView {
    SimView {
        body: SnakeBody::initial_spec(g),
        candidate: None,
        last_facing: Direction::Right,
        last_tail: None,
        food: None,
        state: GameState::Playing,
    }
}

/// One movement tick as a function of the state: commit the buffered intent
/// against the last facing, advance the body by one wrapped step, check
/// self-collision on the moved (pre-growth) body, consume food under the
/// new head and grow onto the freed tail cell, and finally record GameOver
/// if the collision check fired. In GameOver the tick does nothing.
pub open spec fn move_step(m: SimView, g: GridWorld) -> SimView {
    if m.state != GameState::Playing {
        m
    } else {
        let facing = commit_spec(m.candidate, m.last_facing);
        let new_head = next_head(m.body[0], facing, g);
        let moved = shifted(m.body, new_head);
        let collided = hits_self(moved);
        let ate = m.food == Some(new_head);
        SimView {
            body: if ate {
                moved.push(m.body.last())
            } else {
                moved
            },
            candidate: None,
            last_facing: facing,
            last_tail: Some(m.body.last()),
            food: if ate {
                None
            } else {
                m.food
            },
            state: if collided {
                GameState::GameOver
            } else {
                GameState::Playing
            },
        }
    }
}

/// `n` movement ticks in a row.
pub open spec fn move_steps(m: SimView, g: GridWorld, n: nat) -> SimView
    decreases n,
{
    if n == 0 {
        m
    } else {
        move_step(move_steps(m, g, (n - 1) as nat), g)
    }
}

/// A simulation state whose parts agree with the grid.
pub open spec fn sim_wf(m: SimView, g: GridWorld) -> bool {
    &&& g.wf()
    &&& m.body.len() >= 2
    &&& forall|i: int| 0 <= i < m.body.len() ==> g.contains(#[trigger] m.body[i])
    &&& match m.food {
        Some(c) => g.contains(c),
        None => true,
    }
}

/// The whole simulation: grid configuration, game state, and the two
/// accumulators that derive the movement and food cadences from the host's
/// per-frame elapsed time.
#[derive(Debug)]
pub struct GameSim {
    pub grid: GridWorld,
    pub body: SnakeBody,
    pub candidate: Option<Direction>,
    pub last_facing: Direction,
    pub last_tail: Option<Cell>,
    pub food: Option<Cell>,
    pub state: GameState,
    pub acc_move_ms: u64,
    pub acc_food_ms: u64,
}

impl View for GameSim {
    type V = SimView;

    open spec fn view(&self) -> SimView {
        SimView {
            body: self.body@,
            candidate: self.candidate,
            last_facing: self.last_facing,
            last_tail: self.last_tail,
            food: self.food,
            state: self.state,
        }
    }
}

impl GameSim {
    pub open spec fn wf(self) -> bool {
        &&& sim_wf(self@, self.grid)
        &&& self.acc_move_ms < MOVE_INTERVAL_MS
        &&& self.acc_food_ms < FOOD_INTERVAL_MS
    }

    /// A fresh game on a `width` by `height` toroidal grid.
    pub fn new(width: i32, height: i32) -> (s: GameSim)
        requires
            2 <= width,
            2 <= height,
        ensures
            s.grid == (GridWorld { width, height }),
            s@ == initial_sim(s.grid),
            s.acc_move_ms == 0,
            s.acc_food_ms == 0,
            s.wf(),
    {
        let grid = GridWorld { width, height };
        let s = GameSim {
            grid,
            body: SnakeBody::initial(grid),
            candidate: None,
            last_facing: Direction::Right,
            last_tail: None,
            food: None,
            state: GameState::Playing,
            acc_move_ms: 0,
            acc_food_ms: 0,
        };
        proof {
            assert(s@ =~= initial_sim(grid));
        }
        s
    }

    /// Buffers one frame's direction press. A press replaces any earlier
    /// candidate in the same tick window; a frame without a press leaves the
    /// buffer as it is.
    pub fn sample_input(&mut self, pressed: Option<Direction>)
        ensures
            final(self).candidate == match pressed {
                Some(d) => Some(d),
                None => old(self).candidate,
            },
            *final(self) == (GameSim { candidate: final(self).candidate, ..*old(self) }),
    {
        match pressed {
            Some(d) => self.candidate = Some(d),
            None => (),
        }
    }

    /// One movement tick. The order matters: intent is committed first, the
    /// body advances, self-collision is checked on the moved body before any
    /// growth (growing first would let the snake collide with the segment it
    /// just gained), then consumption, growth, and the game-over transition.
    pub fn movement_tick(&mut self)
        requires
            sim_wf(old(self)@, old(self).grid),
        ensures
            final(self)@ == move_step(old(self)@, old(self).grid),
            final(self).grid == old(self).grid,
            final(self).acc_move_ms == old(self).acc_move_ms,
            final(self).acc_food_ms == old(self).acc_food_ms,
            sim_wf(final(self)@, old(self).grid),
    {
        match self.state {
            GameState::GameOver => {
                proof {
                    assert(final(self)@ =~= move_step(old(self)@, old(self).grid));
                }
            },
            GameState::Playing => {
                let facing = commit(self.candidate, self.last_facing);
                self.candidate = None;
                let freed = self.body.advance(facing, self.grid);
                self.last_facing = facing;
                self.last_tail = Some(freed);
                let collided = self_collision(&self.body);
                let head = self.body.head();
                let ate = match self.food {
                    Some(food_cell) => check_consumption(head, food_cell),
                    None => false,
                };
                if ate {
                    self.food = None;
                    self.body.grow(freed);
                }
                if collided {
                    self.state = GameState::GameOver;
                }
                proof {
                    assert(final(self)@.body =~= move_step(old(self)@, old(self).grid).body);
                    assert(final(self)@ =~= move_step(old(self)@, old(self).grid));
                }
            },
        }
    }

    /// Discards the food and the whole body and restores the initial state:
    /// the two-segment body at the grid's center, facing right, Playing.
    /// The cadence accumulators are the scheduler's and keep running.
    pub fn reset(&mut self)
        requires
            old(self).wf(),
        ensures
            final(self)@ == initial_sim(old(self).grid),
            final(self).grid == old(self).grid,
            final(self).acc_move_ms == old(self).acc_move_ms,
            final(self).acc_food_ms == old(self).acc_food_ms,
            final(self).wf(),
    {
        self.body = SnakeBody::initial(self.grid);
        self.candidate = None;
        self.last_facing = Direction::Right;
        self.last_tail = None;
        self.food = None;
        self.state = GameState::Playing;
        proof {
            assert(final(self)@ =~= initial_sim(old(self).grid));
        }
    }

    /// One food-spawn cycle over an explicit sequence of rolls: if food is
    /// already active nothing happens; otherwise the first roll landing on a
    /// free cell becomes the food, and if every roll lands on the body the
    /// cycle is skipped. Everything but the food is left untouched.
    pub fn spawn_food_from_rolls(&mut self, rolls: &Vec<(u32, u32)>)
        requires
            sim_wf(old(self)@, old(self).grid),
        ensures
            final(self)@ == (SimView { food: final(self)@.food, ..old(self)@ }),
            final(self).grid == old(self).grid,
            final(self).acc_move_ms == old(self).acc_move_ms,
            final(self).acc_food_ms == old(self).acc_food_ms,
            final(self)@.food == match old(self)@.food {
                Some(c) => Some(c),
                None => chosen_cell(old(self).grid, old(self)@.body, rolls@),
            },
            old(self)@.food is None ==> (final(self)@.food matches Some(c) ==> old(
                self,
            ).grid.contains(c) && !old(self)@.body.contains(c)),
            sim_wf(final(self)@, old(self).grid),
    {
        if self.food.is_none() {
            self.food = choose_spawn_cell(self.grid, &self.body, rolls);
        }
    }

    /// One food-spawn cycle with freshly drawn random rolls, bounded by
    /// `SPAWN_RETRIES`. Whatever the rolls come out as, a spawned food cell
    /// lies within the grid and off the snake's body.
    pub fn spawn_food_random(&mut self)
        requires
            sim_wf(old(self)@, old(self).grid),
        ensures
            final(self)@ == (SimView { food: final(self)@.food, ..old(self)@ }),
            final(self).grid == old(self).grid,
            final(self).acc_move_ms == old(self).acc_move_ms,
            final(self).acc_food_ms == old(self).acc_food_ms,
            old(self)@.food matches Some(c) ==> final(self)@.food == Some(c),
            old(self)@.food is None ==> (final(self)@.food matches Some(c) ==> old(
                self,
            ).grid.contains(c) && !old(self)@.body.contains(c)),
            sim_wf(final(self)@, old(self).grid),
    {
        let mut rolls: Vec<(u32, u32)> = Vec::new();
        let mut i: usize = 0;
        while i < SPAWN_RETRIES
            invariant
                i <= SPAWN_RETRIES,
            decreases SPAWN_RETRIES - i,
        {
            let rx: u32 = rand::random();
            let ry: u32 = rand::random();
            rolls.push((rx, ry));
            i += 1;
        }
        self.spawn_food_from_rolls(&rolls);
    }

    /// The number of cells the snake occupies.
    pub fn body_len(&self) -> (n: usize)
        ensures
            n == self@.body.len(),
    {
        self.body.len()
    }

    /// The `i`-th body cell, head first.
    pub fn segment(&self, i: usize) -> (c: Cell)
        requires
            i < self@.body.len(),
        ensures
            c == self@.body[i as int],
    {
        self.body.cell_at(i)
    }

    /// The cell the snake's head occupies.
    pub fn head(&self) -> (c: Cell)
        requires
            self@.body.len() >= 1,
        ensures
            c == self@.body[0],
    {
        self.body.head()
    }

    /// The active food cell, if any.
    pub fn food_cell(&self) -> (f: Option<Cell>)
        ensures
            f == self@.food,
    {
        self.food
    }

    /// Playing or GameOver.
    pub fn game_state(&self) -> (s: GameState)
        ensures
            s == self@.state,
    {
        self.state
    }

    /// The single entry point the host's frame loop drives. `elapsed_ms`
    /// milliseconds are added to both cadence accumulators; one movement
    /// tick runs for every full movement interval accumulated, and then one
    /// food-spawn cycle runs if a full food interval has accumulated. The
    /// two cadences are independent; both are serialized into this call.
    pub fn tick(&mut self, elapsed_ms: u32)
        requires
            old(self).wf(),
        ensures
            final(self).wf(),
            final(self).grid == old(self).grid,
            final(self).acc_move_ms == (old(self).acc_move_ms + elapsed_ms) % (MOVE_INTERVAL_MS as int),
            final(self).acc_food_ms == (old(self).acc_food_ms + elapsed_ms) % (FOOD_INTERVAL_MS as int),
            ({
                let n = ((old(self).acc_move_ms + elapsed_ms) / (MOVE_INTERVAL_MS as int)) as nat;
                let mid = move_steps(old(self)@, old(self).grid, n);
                &&& final(self)@.body == mid.body
                &&& final(self)@.candidate == mid.candidate
                &&& final(self)@.last_facing == mid.last_facing
                &&& final(self)@.last_tail == mid.last_tail
                &&& final(self)@.state == mid.state
                &&& (old(self).acc_food_ms + elapsed_ms < FOOD_INTERVAL_MS || mid.food is Some)
                    ==> final(self)@.food == mid.food
                &&& mid.food matches Some(c) ==> final(self)@.food == Some(c)
                &&& mid.food is None ==> (final(self)@.food matches Some(c) ==> old(
                    self,
                ).grid.contains(c) && !mid.body.contains(c))
            }),
    {
        let ghost g = self.grid;
        let ghost m0 = self@;
        self.acc_move_ms = self.acc_move_ms + elapsed_ms as u64;
        self.acc_food_ms = self.acc_food_ms + elapsed_ms as u64;
        let ghost total_move = self.acc_move_ms;
        let ghost total_food = self.acc_food_ms;
        let ghost mut k: nat = 0;
        while self.acc_move_ms >= MOVE_INTERVAL_MS
            invariant
                sim_wf(self@, g),
                self.grid == g,
                self.acc_food_ms == total_food,
                self@ == move_steps(m0, g, k),
                total_move == k * MOVE_INTERVAL_MS + self.acc_move_ms,
            decreases self.acc_move_ms,
        {
            self.movement_tick();
            self.acc_move_ms = self.acc_move_ms - MOVE_INTERVAL_MS;
            proof {
                k = k + 1;
            }
        }
        proof {
            vstd::arithmetic::div_mod::lemma_fundamental_div_mod_converse(
                total_move as int,
                MOVE_INTERVAL_MS as int,
                k as int,
                self.acc_move_ms as int,
            );
        }
        if self.acc_food_ms >= FOOD_INTERVAL_MS {
            self.acc_food_ms = self.acc_food_ms % FOOD_INTERVAL_MS;
            if self.food.is_none() {
                self.spawn_food_random();
            }
        } else {
            proof {
                vstd::arithmetic::div_mod::lemma_small_mod(
                    total_food as nat,
                    FOOD_INTERVAL_MS as nat,
                );
            }
        }
    }
}

/// A self-collision found right after the move — the new head cell equal to
/// some non-head segment cell — turns the state to GameOver; the reset that
/// may follow restores `initial_sim`, whose state is Playing again.
pub proof fn lemma_self_collision_game_over(m: SimView, g: GridWorld)
    requires
        m.state == GameState::Playing,
        m.body.len() >= 1,
        hits_self(shifted(m.body, next_head(m.body[0], commit_spec(m.candidate, m.last_facing), g))),
    ensures
        move_step(m, g).state == GameState::GameOver,
        initial_sim(g).state == GameState::Playing,
        initial_sim(g).body.len() == 2,
{
}

/// Eating — food sitting exactly where the committed facing takes the head
/// — grows the body by exactly one segment within the same tick and clears
/// the food.
pub proof fn lemma_eating_grows(m: SimView, g: GridWorld)
    requires
        m.state == GameState::Playing,
        m.body.len() >= 1,
        m.food == Some(next_head(m.body[0], commit_spec(m.candidate, m.last_facing), g)),
    ensures
        move_step(m, g).body.len() == m.body.len() + 1,
        move_step(m, g).food is None,
{
}

/// A tick that eats nothing keeps the body length unchanged: the moved body
/// is the old body shifted by one position, segment for segment.
pub proof fn lemma_tick_preserves_length(m: SimView, g: GridWorld)
    requires
        m.state == GameState::Playing,
        m.body.len() >= 1,
        m.food != Some(next_head(m.body[0], commit_spec(m.candidate, m.last_facing), g)),
    ensures
        move_step(m, g).body.len() == m.body.len(),
{
}

} // verus!
