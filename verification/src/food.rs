//! Food spawning: a random free-form cell inside the arena, and the
//! independent spawn timer whose period is drawn once at startup.

use rand::Rng;
use vstd::prelude::*;

use crate::game::{GameState, GameView};
use crate::models::{in_bounds, Position};

verus! {

/// Lower bound, in milliseconds, of the food-spawn period range.
pub const SPAWN_PERIOD_MIN_MS: u64 = 500;

/// Upper bound, in milliseconds, of the food-spawn period range (exclusive).
pub const SPAWN_PERIOD_MAX_MS: u64 = 3500;

/// Relies on rand::Rng::gen_range over a half-open integer range: the result
/// is at least the lower bound and below the upper one. The range must not
/// be empty, since gen_range refuses an empty range.
#[verifier::external_body]
fn random_in(lo: u64, hi: u64) -> (r: u64)
    requires
        lo < hi,
    ensures
        lo <= r < hi,
{
    rand::thread_rng().gen_range(lo..hi)
}

impl GameState {
    /// Food spawner: one new food entity at a random cell of the arena. No
    /// check against existing food or the snake: overlaps are accepted.
    pub fn spawn_food(&mut self)
        requires
            4 <= old(self)@.width,
            4 <= old(self)@.height,
        ensures
            final(self)@.foods.len() == old(self)@.foods.len() + 1,
            final(self)@ == (GameView {
                foods: old(self)@.foods.push(final(self)@.foods.last()),
                ..old(self)@
            }),
            in_bounds(final(self)@.foods.last(), old(self)@.width, old(self)@.height),
    {
        let x = random_in(0, self.width as u64);
        let y = random_in(0, self.height as u64);
        let cell = Position { x: x as i32, y: y as i32 };
        self.foods.push(cell);
        proof {
            assert(final(self)@ =~= (GameView {
                foods: old(self)@.foods.push(final(self)@.foods.last()),
                ..old(self)@
            }));
        }
    }
}

/// The independent food-spawn timer: a fixed period drawn once at startup,
/// and the time elapsed since it last fired.
pub struct FoodTimer {
    pub period_ms: u64,
    pub elapsed_ms: u64,
}

impl FoodTimer {
    /// Well-formedness: a period inside the startup range, never yet
    /// overrun.
    pub open spec fn wf(self) -> bool {
        &&& SPAWN_PERIOD_MIN_MS <= self.period_ms < SPAWN_PERIOD_MAX_MS
        &&& self.elapsed_ms < self.period_ms
    }

    /// A fresh timer with its period drawn once, uniformly from the startup
    /// range.
    pub fn new() -> (timer: FoodTimer)
        ensures
            timer.wf(),
            timer.elapsed_ms == 0,
    {
        FoodTimer { period_ms: random_in(SPAWN_PERIOD_MIN_MS, SPAWN_PERIOD_MAX_MS), elapsed_ms: 0 }
    }

    /// Advances the timer by `dt_ms` milliseconds and reports whether the
    /// period elapsed; overshoot carries over into the next period.
    pub fn advance(&mut self, dt_ms: u64) -> (fire: bool)
        requires
            old(self).wf(),
            dt_ms <= u64::MAX - SPAWN_PERIOD_MAX_MS,
        ensures
            final(self).wf(),
            final(self).period_ms == old(self).period_ms,
            fire == (old(self).elapsed_ms + dt_ms >= old(self).period_ms),
            final(self).elapsed_ms == (old(self).elapsed_ms + dt_ms) % (
            old(self).period_ms as int),
    {
        let total = self.elapsed_ms + dt_ms;
        if total >= self.period_ms {
            self.elapsed_ms = total % self.period_ms;
            true
        } else {
            self.elapsed_ms = total;
            proof {
                vstd::arithmetic::div_mod::lemma_small_mod(total as nat, self.period_ms as nat);
            }
            false
        }
    }
}

} // verus!
