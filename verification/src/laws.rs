//! The library's stated laws: follow-the-leader movement, rejection of
//! reversals, the two game-over causes and the restart they force, growth on
//! eating, and high-score monotonicity.

use vstd::prelude::*;

use crate::game::{
    count_food_at, game_over_condition, hits_self, initial_segments, lemma_remove_food_at,
    moved_segments, spec_resolve, spec_tick, GameView,
};
use crate::models::{in_bounds, opposite_dir, Position, SnakeDirection};

verus! {

/// Law: after one movement step, every segment but the head stands exactly
/// where its predecessor stood immediately before the step.
pub proof fn lemma_follow_the_leader(segments: Seq<Position>, d: SnakeDirection)
    requires
        1 <= segments.len(),
    ensures
        forall|i: int|
            0 <= i && i + 1 < segments.len() ==> moved_segments(segments, d)[i + 1] == segments[i],
{
}

/// Law: the direction resolver never yields the exact opposite of the
/// heading it started from, whatever the sampled intent.
pub proof fn lemma_no_reversal(cur: SnakeDirection, intent: Option<SnakeDirection>)
    ensures
        spec_resolve(cur, intent) != opposite_dir(cur),
{
}

/// Law: a head outside the arena after movement forces a restart within the
/// same tick: score zero, the canonical two-segment snake, no food left, and
/// the high score not lowered.
pub proof fn lemma_wall_exit_resets(s: GameView, intent: Option<SnakeDirection>)
    requires
        s.wf(),
        !in_bounds(
            moved_segments(s.segments, spec_resolve(s.direction, intent))[0],
            s.width,
            s.height,
        ),
    ensures
        spec_tick(s, intent).score == 0,
        spec_tick(s, intent).segments == initial_segments(),
        spec_tick(s, intent).foods.len() == 0,
        spec_tick(s, intent).direction == SnakeDirection::Up,
        spec_tick(s, intent).high_score >= s.high_score,
{
}

/// Law: a head on any trailing segment after movement forces the same
/// restart within the same tick.
pub proof fn lemma_self_collision_resets(s: GameView, intent: Option<SnakeDirection>)
    requires
        s.wf(),
        hits_self(moved_segments(s.segments, spec_resolve(s.direction, intent))),
    ensures
        spec_tick(s, intent).score == 0,
        spec_tick(s, intent).segments == initial_segments(),
        spec_tick(s, intent).foods.len() == 0,
        spec_tick(s, intent).direction == SnakeDirection::Up,
        spec_tick(s, intent).high_score >= s.high_score,
{
}

/// Law: a tick whose post-movement head sits on at least one food, without a
/// collision, removes every food on that cell, lengthens the chain by
/// exactly one segment, and scores exactly one point.
pub proof fn lemma_eating_grows(s: GameView, intent: Option<SnakeDirection>)
    requires
        s.wf(),
        count_food_at(
            s.foods,
            moved_segments(s.segments, spec_resolve(s.direction, intent))[0],
        ) > 0,
        !game_over_condition(
            moved_segments(s.segments, spec_resolve(s.direction, intent)),
            s.width,
            s.height,
        ),
    ensures
        spec_tick(s, intent).segments.len() == s.segments.len() + 1,
        spec_tick(s, intent).score == s.score + 1,
        count_food_at(
            spec_tick(s, intent).foods,
            moved_segments(s.segments, spec_resolve(s.direction, intent))[0],
        ) == 0,
{
    lemma_remove_food_at(
        s.foods,
        moved_segments(s.segments, spec_resolve(s.direction, intent))[0],
    );
}

/// Law: the high score never decreases across a tick, game over or not. The
/// exact fold on a game over stands in [`crate::game::reset_view`] and in
/// the `ensures` of [`crate::game::GameState::game_over`].
pub proof fn lemma_high_score_monotone(s: GameView, intent: Option<SnakeDirection>)
    ensures
        spec_tick(s, intent).high_score >= s.high_score,
{
}

} // verus!
