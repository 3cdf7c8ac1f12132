//! The per-frame scheduler: one game state and the two independent
//! fixed-interval timers that gate the movement tick and the food spawn.
//! Each frame runs input resolution first, then each timer-gated system at
//! most once, in line with the single-threaded cooperative schedule the game
//! runs under.
use vstd::prelude::*;

use crate::grid::can_step;
use crate::input::spec_resolve;
use crate::input::DirectionalKeys;
use crate::state::GameState;
use crate::timer::IntervalTimer;

verus! {

/// Milliseconds between movement ticks.
pub const MOVEMENT_INTERVAL_MS: u64 = 250;

/// Milliseconds between food spawns.
pub const FOOD_INTERVAL_MS: u64 = 100;

/// The whole running game: the state plus the two wall-clock timers, owned
/// explicitly so a frame can be driven by injected elapsed time.
pub struct Game {
    pub state: GameState,
    pub movement_timer: IntervalTimer,
    pub food_timer: IntervalTimer,
}

impl Game {
    /// Both timers are well formed.
    pub open spec fn wf(self) -> bool {
        self.movement_timer.wf() && self.food_timer.wf()
    }

    /// A fresh game: the startup snake, and both timers at zero with their
    /// fixed intervals.
    pub fn new() -> (g: Game)
        ensures
            g.wf(),
            g.state@ == crate::state::startup_view(),
            g.movement_timer.interval_ms == MOVEMENT_INTERVAL_MS,
            g.movement_timer.elapsed_ms == 0,
            g.food_timer.interval_ms == FOOD_INTERVAL_MS,
            g.food_timer.elapsed_ms == 0,
    {
        Game {
            state: GameState::startup(),
            movement_timer: IntervalTimer::new(MOVEMENT_INTERVAL_MS),
            food_timer: IntervalTimer::new(FOOD_INTERVAL_MS),
        }
    }

    /// Run one frame with the frame's key state and elapsed wall-clock time:
    /// resolve and apply the directional input first, then advance each
    /// timer, running one movement tick if the movement timer fired and
    /// spawning one food if the food timer fired. Each gated system runs at
    /// most once per frame, with no catch-up for missed frames. Returns
    /// whether the movement tick ran and whether a food was spawned.
    pub fn frame(&mut self, keys: DirectionalKeys, delta_ms: u64) -> (fired: (bool, bool))
        requires
            old(self).wf(),
            delta_ms <= u64::MAX - old(self).movement_timer.interval_ms,
            delta_ms <= u64::MAX - old(self).food_timer.interval_ms,
            old(self).movement_timer.spec_fires(delta_ms) ==> can_step(
                old(self).state@.head,
                spec_resolve(keys, old(self).state@.direction),
            ),
        ensures
            final(self).wf(),
            fired.0 == old(self).movement_timer.spec_fires(delta_ms),
            fired.1 == old(self).food_timer.spec_fires(delta_ms),
            final(self).movement_timer == ({
                let t = old(self).movement_timer;
                IntervalTimer {
                    interval_ms: t.interval_ms,
                    elapsed_ms: if fired.0 {
                        ((t.elapsed_ms + delta_ms) % (t.interval_ms as int)) as u64
                    } else {
                        (t.elapsed_ms + delta_ms) as u64
                    },
                }
            }),
            final(self).food_timer == ({
                let t = old(self).food_timer;
                IntervalTimer {
                    interval_ms: t.interval_ms,
                    elapsed_ms: if fired.1 {
                        ((t.elapsed_ms + delta_ms) % (t.interval_ms as int)) as u64
                    } else {
                        (t.elapsed_ms + delta_ms) as u64
                    },
                }
            }),
            ({
                let steered = old(self).state@.with_direction(
                    spec_resolve(keys, old(self).state@.direction),
                );
                let moved = if fired.0 {
                    steered.movement_step()
                } else {
                    steered
                };
                &&& final(self).state@.head == moved.head
                &&& final(self).state@.direction == moved.direction
                &&& final(self).state@.segments == moved.segments
                &&& if fired.1 {
                    &&& final(self).state@.foods.len() == moved.foods.len() + 1
                    &&& final(self).state@.foods.drop_last() == moved.foods
                    &&& crate::state::food_in_spawn_range(final(self).state@.foods.last())
                } else {
                    final(self).state@.foods == moved.foods
                }
            }),
    {
        self.state.apply_input(keys);
        let moved = self.movement_timer.tick(delta_ms);
        if moved {
            self.state.movement_tick();
        }
        let fed = self.food_timer.tick(delta_ms);
        if fed {
            self.state.spawn_food();
        }
        (moved, fed)
    }
}

} // verus!
