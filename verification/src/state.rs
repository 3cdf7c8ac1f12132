//! The game state and its updates: the head with its direction, the body
//! chain in explicit order (the first segment in the sequence trails the head
//! directly), the food on the grid, the follow-the-leader movement tick, the
//! input write, and random food placement.
use vstd::prelude::*;

use crate::grid::can_step;
use crate::grid::step_pos;
use crate::grid::Direction;
use crate::grid::Position;
use crate::input::spec_resolve;
use crate::input::resolve_direction;
use crate::input::DirectionalKeys;
use crate::rng::gen_range_i32;
use crate::rng::thread_rng_handle;

verus! {

/// Width of the arena in grid units.
pub const ARENA_WIDTH: i32 = 15;

/// Height of the arena in grid units.
pub const ARENA_HEIGHT: i32 = 15;

/// How many body segments the snake starts with.
pub const INITIAL_SEGMENT_COUNT: usize = 4;

/// The whole game state: the unique head with its position and direction,
/// the body segments in chain order (index 0 trails the head), and every
/// food so far spawned. Food is never removed and segments never change
/// count after startup: the game has no consumption, growth or collision
/// logic.
pub struct GameState {
    pub head: Position,
    pub direction: Direction,
    pub segments: Vec<Position>,
    pub foods: Vec<Position>,
}

/// The mathematical image of a [`GameState`].
#[verifier::ext_equal]
pub struct GameStateView {
    pub head: Position,
    pub direction: Direction,
    pub segments: Seq<Position>,
    pub foods: Seq<Position>,
}

impl View for GameState {
    type V = GameStateView;

    open spec fn view(&self) -> GameStateView {
        GameStateView {
            head: self.head,
            direction: self.direction,
            segments: self.segments@,
            foods: self.foods@,
        }
    }
}

/// The body chain after one movement tick, given where the head stood just
/// before the tick: the first segment takes the head's old place, and every
/// later segment takes the old place of the segment ahead of it. The last
/// segment's old place is simply vacated.
pub open spec fn follow_chain(prev_head: Position, segs: Seq<Position>) -> Seq<Position> {
    Seq::new(segs.len(), |i: int| if i == 0 { prev_head } else { segs[i - 1] })
}

impl GameStateView {
    /// The state one movement tick later: the head advances one unit along
    /// its direction and the body follows its leader.
    pub open spec fn movement_step(self) -> GameStateView {
        GameStateView {
            head: step_pos(self.head, self.direction),
            direction: self.direction,
            segments: follow_chain(self.head, self.segments),
            foods: self.foods,
        }
    }

    /// The same state with the head facing `d`.
    pub open spec fn with_direction(self, d: Direction) -> GameStateView {
        GameStateView { direction: d, ..self }
    }
}

/// The follow-chain law: after a movement step the first segment stands
/// where the head stood immediately before the step, and every later segment
/// stands where its predecessor stood immediately before the step; the chain
/// keeps its length.
pub proof fn lemma_follow_chain(v: GameStateView)
    ensures
        v.movement_step().segments.len() == v.segments.len(),
        v.segments.len() > 0 ==> v.movement_step().segments[0] == v.head,
        forall|i: int|
            1 <= i < v.segments.len() ==> v.movement_step().segments[i] == v.segments[i - 1],
{
}

/// Where a food may appear: a uniformly random cell with each coordinate in
/// the half-open range from minus half the arena dimension to half the arena
/// dimension.
pub open spec fn food_in_spawn_range(p: Position) -> bool {
    &&& -((ARENA_WIDTH as int) / 2) <= p.x < (ARENA_WIDTH as int) / 2
    &&& -((ARENA_HEIGHT as int) / 2) <= p.y < (ARENA_HEIGHT as int) / 2
}

/// The state right after startup: the head at the origin facing right, the
/// initial segments all overlapping at the origin (movement ticks separate
/// them), and no food yet.
pub open spec fn startup_view() -> GameStateView {
    GameStateView {
        head: Position { x: 0, y: 0 },
        direction: Direction::Right,
        segments: Seq::new(INITIAL_SEGMENT_COUNT as nat, |_i: int| (Position { x: 0, y: 0 })),
        foods: Seq::empty(),
    }
}

impl GameState {
    /// Spawn the head: a snake at the origin facing right, with no body
    /// segments and no food yet.
    pub fn new() -> (s: GameState)
        ensures
            s@.head == (Position { x: 0, y: 0 }),
            s@.direction == Direction::Right,
            s@.segments.len() == 0,
            s@.foods.len() == 0,
    {
        GameState {
            head: Position { x: 0, y: 0 },
            direction: Direction::Right,
            segments: Vec::new(),
            foods: Vec::new(),
        }
    }

    /// Spawn one body segment at the origin, appended at the tail of the
    /// chain: creation order is chain order, so the first segment spawned
    /// trails the head directly.
    pub fn add_segment(&mut self)
        ensures
            final(self)@.head == old(self)@.head,
            final(self)@.direction == old(self)@.direction,
            final(self)@.foods == old(self)@.foods,
            final(self)@.segments == old(self)@.segments.push((Position { x: 0, y: 0 })),
    {
        self.segments.push(Position { x: 0, y: 0 });
    }

    /// The startup state: spawn the head, then the initial body segments.
    pub fn startup() -> (s: GameState)
        ensures
            s@ == startup_view(),
    {
        let mut s = GameState::new();
        s.add_segment();
        s.add_segment();
        s.add_segment();
        s.add_segment();
        proof {
            assert(s@.segments =~= startup_view().segments);
            assert(s@.foods =~= startup_view().foods);
            assert(s@ =~= startup_view());
        }
        s
    }

    /// Write the frame's resolved direction into the head, unconditionally:
    /// no input is rejected, and the movement engine's opposite-direction
    /// relation is not consulted, so a direct reversal is accepted.
    pub fn apply_input(&mut self, keys: DirectionalKeys)
        ensures
            final(self)@ == old(self)@.with_direction(spec_resolve(keys, old(self)@.direction)),
    {
        self.direction = resolve_direction(keys, self.direction);
        proof {
            assert(self@ =~= old(self)@.with_direction(
                spec_resolve(keys, old(self)@.direction),
            ));
        }
    }

    /// One movement tick: advance the head one grid unit along its current
    /// direction and ripple every body segment to the place its leader
    /// vacated. No bounds are checked against the arena: the chain may leave
    /// the visible arena indefinitely.
    pub fn movement_tick(&mut self)
        requires
            can_step(old(self)@.head, old(self)@.direction),
        ensures
            final(self)@ == old(self)@.movement_step(),
    {
        let ghost pre = self@;
        let mut previous = self.head;
        match self.direction {
            Direction::Up => {
                self.head.y = self.head.y + 1;
            },
            Direction::Down => {
                self.head.y = self.head.y - 1;
            },
            Direction::Left => {
                self.head.x = self.head.x - 1;
            },
            Direction::Right => {
                self.head.x = self.head.x + 1;
            },
        }
        let n = self.segments.len();
        let mut i: usize = 0;
        while i < n
            invariant
                i <= n,
                n == self.segments.len(),
                self.head == step_pos(pre.head, pre.direction),
                self.direction == pre.direction,
                self.foods@ == pre.foods,
                self.segments@.len() == pre.segments.len(),
                forall|j: int| i <= j < n ==> self.segments@[j] == pre.segments[j],
                forall|j: int|
                    0 <= j < i ==> self.segments@[j] == follow_chain(pre.head, pre.segments)[j],
                previous == (if i == 0 {
                    pre.head
                } else {
                    pre.segments[i - 1]
                }),
            decreases n - i,
        {
            let current = self.segments[i];
            self.segments.set(i, previous);
            previous = current;
            i = i + 1;
        }
        proof {
            assert(self.segments@ =~= follow_chain(pre.head, pre.segments));
            assert(self@ =~= pre.movement_step());
        }
    }

    /// Spawn one food at a uniformly random cell of the arena, appended to
    /// the foods. Food accumulates without bound: nothing ever removes it.
    pub fn spawn_food(&mut self)
        ensures
            final(self)@.head == old(self)@.head,
            final(self)@.direction == old(self)@.direction,
            final(self)@.segments == old(self)@.segments,
            final(self)@.foods.len() == old(self)@.foods.len() + 1,
            final(self)@.foods.drop_last() == old(self)@.foods,
            food_in_spawn_range(final(self)@.foods.last()),
    {
        let mut rng = thread_rng_handle();
        let half_w: i32 = ARENA_WIDTH / 2;
        let half_h: i32 = ARENA_HEIGHT / 2;
        let x = gen_range_i32(&mut rng, -half_w, half_w);
        let y = gen_range_i32(&mut rng, -half_h, half_h);
        self.foods.push(Position { x, y });
        proof {
            assert(self@.foods.drop_last() =~= old(self)@.foods);
        }
    }
}

} // verus!
