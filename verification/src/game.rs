//! The per-tick state machine: direction resolution, movement, eating,
//! growth, collision detection and the game-over restart, all over one
//! explicit game state.

use vstd::prelude::*;

use crate::models::{in_bounds, opposite_dir, Position, Snake, SnakeDirection};

verus! {

/// Mathematical image of a [`GameState`]: the same data over `Seq` and `int`.
#[verifier::ext_equal]
pub ghost struct GameView {
    pub width: int,
    pub height: int,
    pub direction: SnakeDirection,
    pub segments: Seq<Position>,
    pub foods: Seq<Position>,
    pub score: int,
    pub high_score: int,
}

impl GameView {
    /// Well-formedness between ticks: an arena wide enough for the canonical
    /// start cell, a live snake whose segments and foods all lie inside the
    /// arena, and non-negative scores.
    pub open spec fn wf(self) -> bool {
        &&& 4 <= self.width
        &&& 4 <= self.height
        &&& 1 <= self.segments.len()
        &&& forall|i: int|
            0 <= i < self.segments.len() ==> in_bounds(
                #[trigger] self.segments[i],
                self.width,
                self.height,
            )
        &&& forall|i: int|
            0 <= i < self.foods.len() ==> in_bounds(
                #[trigger] self.foods[i],
                self.width,
                self.height,
            )
        &&& 0 <= self.score
        &&& 0 <= self.high_score
    }
}

/// The whole game at one instant: the snake with its heading, the segment
/// chain head-first, the live food cells, both scores, and the arena bounds.
pub struct GameState {
    pub width: i32,
    pub height: i32,
    pub snake: Snake,
    pub segments: Vec<Position>,
    pub foods: Vec<Position>,
    pub score: i32,
    pub high_score: i32,
}

impl View for GameState {
    type V = GameView;

    open spec fn view(&self) -> GameView {
        GameView {
            width: self.width as int,
            height: self.height as int,
            direction: self.snake.direction,
            segments: self.segments@,
            foods: self.foods@,
            score: self.score as int,
            high_score: self.high_score as int,
        }
    }
}

/// The heading adopted from the latest sampled intent: `None` keeps the
/// current heading, and so does an intent that is its exact opposite.
pub open spec fn spec_resolve(cur: SnakeDirection, intent: Option<SnakeDirection>) -> SnakeDirection {
    match intent {
        Option::None => cur,
        Option::Some(d) => if d == opposite_dir(cur) {
            cur
        } else {
            d
        },
    }
}

/// One cell of travel along `d`.
pub open spec fn dir_delta(d: SnakeDirection) -> (int, int) {
    match d {
        SnakeDirection::Left => (-1, 0),
        SnakeDirection::Right => (1, 0),
        SnakeDirection::Up => (0, 1),
        SnakeDirection::Down => (0, -1),
    }
}

/// `p` advanced one cell along `d`.
pub open spec fn step_pos(p: Position, d: SnakeDirection) -> Position {
    Position { x: (p.x + dir_delta(d).0) as i32, y: (p.y + dir_delta(d).1) as i32 }
}

/// The chain after one movement step: the head advances one cell along `d`
/// and every other segment adopts its predecessor's pre-step position.
pub open spec fn moved_segments(segments: Seq<Position>, d: SnakeDirection) -> Seq<Position> {
    Seq::new(
        segments.len(),
        |i: int|
            if i == 0 {
                step_pos(segments[0], d)
            } else {
                segments[i - 1]
            },
    )
}

/// `foods` with every cell equal to `p` taken out, order kept.
pub open spec fn remove_food_at(foods: Seq<Position>, p: Position) -> Seq<Position>
    decreases foods.len(),
{
    if foods.len() == 0 {
        Seq::empty()
    } else if foods.last() == p {
        remove_food_at(foods.drop_last(), p)
    } else {
        remove_food_at(foods.drop_last(), p).push(foods.last())
    }
}

/// How many cells of `foods` equal `p`.
pub open spec fn count_food_at(foods: Seq<Position>, p: Position) -> nat
    decreases foods.len(),
{
    if foods.len() == 0 {
        0
    } else if foods.last() == p {
        count_food_at(foods.drop_last(), p) + 1
    } else {
        count_food_at(foods.drop_last(), p)
    }
}

/// Removal takes out every cell equal to `p` and keeps each other cell.
pub proof fn lemma_remove_food_at(foods: Seq<Position>, p: Position)
    ensures
        count_food_at(remove_food_at(foods, p), p) == 0,
        forall|i: int|
            0 <= i < remove_food_at(foods, p).len() ==> exists|j: int|
                0 <= j < foods.len() && foods[j] == #[trigger] remove_food_at(foods, p)[i],
    decreases foods.len(),
{
    if foods.len() > 0 {
        lemma_remove_food_at(foods.drop_last(), p);
        if foods.last() != p {
            let shorter = remove_food_at(foods.drop_last(), p);
            assert(shorter.push(foods.last()).drop_last() =~= shorter);
        }
        assert forall|i: int| 0 <= i < remove_food_at(foods, p).len() implies exists|j: int|
            0 <= j < foods.len() && foods[j] == #[trigger] remove_food_at(foods, p)[i] by {
            let shorter = remove_food_at(foods.drop_last(), p);
            if i < shorter.len() {
                let j = choose|j: int| 0 <= j < foods.drop_last().len() && foods.drop_last()[j]
                    == shorter[i];
                assert(foods[j] == remove_food_at(foods, p)[i]);
            } else {
                assert(foods[foods.len() - 1] == remove_food_at(foods, p)[i]);
            }
        }
    }
}

/// Whether the head of `segments` lies on any trailing segment.
pub open spec fn hits_self(segments: Seq<Position>) -> bool {
    exists|i: int| 1 <= i < segments.len() && #[trigger] segments[i] == segments[0]
}

/// Whether the chain is in a game-over condition: head outside the arena or
/// on a trailing segment.
pub open spec fn game_over_condition(segments: Seq<Position>, w: int, h: int) -> bool {
    !in_bounds(segments[0], w, h) || hits_self(segments)
}

/// The canonical start chain: head and one trailing segment.
pub open spec fn initial_segments() -> Seq<Position> {
    seq![Position { x: 3, y: 3 }, Position { x: 3, y: 2 }]
}

impl GameState {
    /// Direction/intent resolver: adopt the latest sampled intent unless it
    /// is absent or would reverse the snake onto itself.
    pub fn snake_movement_input(&mut self, intent: Option<SnakeDirection>)
        ensures
            final(self)@ == (GameView {
                direction: spec_resolve(old(self)@.direction, intent),
                ..old(self)@
            }),
    {
        let direction = match intent {
            Option::Some(d) => d,
            Option::None => self.snake.direction,
        };
        if direction != self.snake.direction.opposite() {
            self.snake.direction = direction;
        }
        proof {
            assert(final(self)@ =~= (GameView {
                direction: spec_resolve(old(self)@.direction, intent),
                ..old(self)@
            }));
        }
    }

    /// Movement engine: one follow-the-leader step of the whole chain along
    /// the current heading. Out-of-bounds heads are legal here; the collision
    /// detector judges them afterwards.
    pub fn snake_movement(&mut self)
        requires
            old(self)@.wf(),
        ensures
            final(self)@ == (GameView {
                segments: moved_segments(old(self)@.segments, old(self)@.direction),
                ..old(self)@
            }),
    {
        let (dx, dy): (i32, i32) = match self.snake.direction {
            SnakeDirection::Left => (-1, 0),
            SnakeDirection::Right => (1, 0),
            SnakeDirection::Up => (0, 1),
            SnakeDirection::Down => (0, -1),
        };
        let head = self.segments[0];
        let moved_head = Position { x: head.x + dx, y: head.y + dy };
        let ghost target = moved_segments(old(self)@.segments, old(self)@.direction);

        let mut prev: Position = head;
        self.segments.set(0, moved_head);
        let n = self.segments.len();
        let mut i: usize = 1;
        while i < n
            invariant
                1 <= i <= n,
                n == self.segments@.len(),
                n == old(self)@.segments.len(),
                target == moved_segments(old(self)@.segments, old(self)@.direction),
                target.len() == n,
                prev == old(self)@.segments[i - 1],
                forall|j: int| 0 <= j < i ==> self.segments@[j] == target[j],
                forall|j: int| i <= j < n ==> self.segments@[j] == old(self)@.segments[j],
                self.width == old(self).width,
                self.height == old(self).height,
                self.snake == old(self).snake,
                self.foods == old(self).foods,
                self.score == old(self).score,
                self.high_score == old(self).high_score,
            decreases n - i,
        {
            let here = self.segments[i];
            self.segments.set(i, prev);
            prev = here;
            i += 1;
        }
        proof {
            assert(self.segments@ =~= target);
            assert(final(self)@ =~= (GameView {
                segments: moved_segments(old(self)@.segments, old(self)@.direction),
                ..old(self)@
            }));
        }
    }

    /// Eating detector: every food on the head's cell is removed, and each
    /// one removed is one pending grow signal.
    pub fn snake_eating(&mut self) -> (signals: usize)
        requires
            1 <= old(self)@.segments.len(),
        ensures
            signals == count_food_at(old(self)@.foods, old(self)@.segments[0]),
            final(self)@ == (GameView {
                foods: remove_food_at(old(self)@.foods, old(self)@.segments[0]),
                ..old(self)@
            }),
    {
        let head = self.segments[0];
        let mut kept: Vec<Position> = Vec::new();
        let mut signals: usize = 0;
        let n = self.foods.len();
        let mut i: usize = 0;
        while i < n
            invariant
                0 <= i <= n,
                n == self.foods@.len(),
                head == old(self)@.segments[0],
                self.foods == old(self).foods,
                kept@ == remove_food_at(self.foods@.take(i as int), head),
                signals == count_food_at(self.foods@.take(i as int), head),
                signals <= i,
            decreases n - i,
        {
            proof {
                assert(self.foods@.take(i + 1).drop_last() =~= self.foods@.take(i as int));
                assert(self.foods@.take(i + 1).last() == self.foods@[i as int]);
            }
            let food = self.foods[i];
            if food == head {
                signals += 1;
            } else {
                kept.push(food);
            }
            i += 1;
        }
        proof {
            assert(self.foods@.take(n as int) =~= self.foods@);
        }
        self.foods = kept;
        proof {
            assert(final(self)@ =~= (GameView {
                foods: remove_food_at(old(self)@.foods, old(self)@.segments[0]),
                ..old(self)@
            }));
        }
        signals
    }

    /// Appends one segment at `pos`, at the tail of the chain.
    pub fn spawn_segment(&mut self, pos: Position)
        ensures
            final(self)@ == (GameView { segments: old(self)@.segments.push(pos), ..old(self)@ }),
    {
        self.segments.push(pos);
        proof {
            assert(final(self)@ =~= (GameView {
                segments: old(self)@.segments.push(pos),
                ..old(self)@
            }));
        }
    }

    /// Growth handler: at least one pending grow signal appends exactly one
    /// segment at the tail's current cell and scores exactly one point,
    /// however many signals are pending; none leaves the state alone.
    pub fn snake_grow(&mut self, signals: usize)
        requires
            1 <= old(self)@.segments.len(),
            old(self)@.score < i32::MAX,
        ensures
            signals == 0 ==> final(self)@ == old(self)@,
            signals > 0 ==> final(self)@ == (GameView {
                segments: old(self)@.segments.push(old(self)@.segments.last()),
                score: old(self)@.score + 1,
                ..old(self)@
            }),
    {
        if signals == 0 {
            proof {
                assert(final(self)@ =~= old(self)@);
            }
            return ;
        }
        let tail = self.segments[self.segments.len() - 1];
        self.spawn_segment(tail);
        self.score = self.score + 1;
        proof {
            assert(final(self)@ =~= (GameView {
                segments: old(self)@.segments.push(old(self)@.segments.last()),
                score: old(self)@.score + 1,
                ..old(self)@
            }));
        }
    }

    /// Collision detector: reports a game over exactly when the head has
    /// left the arena or sits on a trailing segment. Foods never collide.
    pub fn snake_collision(&self) -> (game_over: bool)
        requires
            1 <= self@.segments.len(),
        ensures
            game_over == game_over_condition(self@.segments, self@.width, self@.height),
    {
        let head = self.segments[0];
        if head.x >= self.width || head.x < 0 || head.y >= self.height || head.y < 0 {
            return true;
        }
        let n = self.segments.len();
        let mut i: usize = 1;
        while i < n
            invariant
                1 <= i <= n,
                n == self@.segments.len(),
                head == self@.segments[0],
                forall|j: int| 1 <= j < i ==> self@.segments[j] != head,
            decreases n - i,
        {
            let segment = self.segments[i];
            if segment == head {
                return true;
            }
            i += 1;
        }
        false
    }

    /// Resets the snake itself: the canonical two-segment chain, heading up.
    pub fn spawn_snake(&mut self)
        ensures
            final(self)@ == (GameView {
                direction: SnakeDirection::Up,
                segments: initial_segments(),
                ..old(self)@
            }),
    {
        self.snake = Snake { direction: SnakeDirection::Up };
        let mut chain: Vec<Position> = Vec::new();
        chain.push(Position { x: 3, y: 3 });
        chain.push(Position { x: 3, y: 2 });
        self.segments = chain;
        proof {
            assert(final(self)@.segments =~= initial_segments());
            assert(final(self)@ =~= (GameView {
                direction: SnakeDirection::Up,
                segments: initial_segments(),
                ..old(self)@
            }));
        }
    }

    /// Game-over handler: every snake, segment and food entity goes away,
    /// the high score folds in the round's score, the score resets, and the
    /// canonical snake respawns in the same instant.
    pub fn game_over(&mut self)
        ensures
            final(self)@ == reset_view(old(self)@),
    {
        if self.score > self.high_score {
            self.high_score = self.score;
        }
        self.score = 0;
        self.foods = Vec::new();
        self.spawn_snake();
        proof {
            assert(final(self)@ =~= reset_view(old(self)@));
        }
    }

    /// A fresh game over a `width` by `height` arena, in the canonical start
    /// state.
    pub fn new(width: i32, height: i32) -> (game: GameState)
        requires
            4 <= width,
            4 <= height,
        ensures
            game@ == (GameView {
                width: width as int,
                height: height as int,
                direction: SnakeDirection::Up,
                segments: initial_segments(),
                foods: Seq::empty(),
                score: 0,
                high_score: 0,
            }),
            game@.wf(),
    {
        let mut game = GameState {
            width,
            height,
            snake: Snake { direction: SnakeDirection::Up },
            segments: Vec::new(),
            foods: Vec::new(),
            score: 0,
            high_score: 0,
        };
        game.spawn_snake();
        proof {
            assert(game@ =~= (GameView {
                width: width as int,
                height: height as int,
                direction: SnakeDirection::Up,
                segments: initial_segments(),
                foods: Seq::empty(),
                score: 0,
                high_score: 0,
            }));
        }
        game
    }
}

/// One whole movement tick of `s` under the latest sampled `intent`, in the
/// pipeline's order: direction resolution, movement, eating, growth,
/// collision, and — on a collision — the game-over restart.
pub open spec fn spec_tick(s: GameView, intent: Option<SnakeDirection>) -> GameView {
    let direction = spec_resolve(s.direction, intent);
    let moved = moved_segments(s.segments, direction);
    let head = moved[0];
    let ate = count_food_at(s.foods, head) > 0;
    let run = GameView {
        direction,
        segments: if ate {
            moved.push(moved.last())
        } else {
            moved
        },
        foods: remove_food_at(s.foods, head),
        score: if ate {
            s.score + 1
        } else {
            s.score
        },
        ..s
    };
    if game_over_condition(moved, s.width, s.height) {
        reset_view(run)
    } else {
        run
    }
}

/// The state after a game over of `s`: scores folded and reset, the arena
/// cleared, the canonical snake back in place.
pub open spec fn reset_view(s: GameView) -> GameView {
    GameView {
        width: s.width,
        height: s.height,
        direction: SnakeDirection::Up,
        segments: initial_segments(),
        foods: Seq::empty(),
        score: 0,
        high_score: if s.score > s.high_score {
            s.score
        } else {
            s.high_score
        },
    }
}

/// A game-over restart of any state with a wide-enough arena and
/// non-negative scores is well-formed.
pub proof fn lemma_reset_wf(s: GameView)
    requires
        4 <= s.width,
        4 <= s.height,
        0 <= s.score,
        0 <= s.high_score,
    ensures
        reset_view(s).wf(),
{
    assert(initial_segments()[0] == Position { x: 3, y: 3 });
    assert(initial_segments()[1] == Position { x: 3, y: 2 });
}

/// Invariant: one whole tick keeps the state well-formed.
pub proof fn lemma_tick_preserves_wf(s: GameView, intent: Option<SnakeDirection>)
    requires
        s.wf(),
    ensures
        spec_tick(s, intent).wf(),
{
    let direction = spec_resolve(s.direction, intent);
    let moved = moved_segments(s.segments, direction);
    let head = moved[0];
    let kept = remove_food_at(s.foods, head);
    lemma_remove_food_at(s.foods, head);
    assert forall|i: int| 0 <= i < kept.len() implies in_bounds(
        #[trigger] kept[i],
        s.width,
        s.height,
    ) by {
        let j = choose|j: int| 0 <= j < s.foods.len() && s.foods[j] == kept[i];
        assert(in_bounds(s.foods[j], s.width, s.height));
    }
    if game_over_condition(moved, s.width, s.height) {
        lemma_reset_wf(
            GameView {
                direction,
                segments: if count_food_at(s.foods, head) > 0 {
                    moved.push(moved.last())
                } else {
                    moved
                },
                foods: kept,
                score: if count_food_at(s.foods, head) > 0 {
                    s.score + 1
                } else {
                    s.score
                },
                ..s
            },
        );
    } else {
        let grown = spec_tick(s, intent).segments;
        assert forall|i: int| 0 <= i < grown.len() implies in_bounds(
            #[trigger] grown[i],
            s.width,
            s.height,
        ) by {
            if i == 0 {
                assert(in_bounds(moved[0], s.width, s.height));
            } else if i < moved.len() {
                assert(in_bounds(s.segments[i - 1], s.width, s.height));
            } else {
                if moved.len() == 1 {
                    assert(grown[i] == moved[0]);
                } else {
                    assert(grown[i] == s.segments[moved.len() - 2]);
                }
            }
        }
    }
}

impl GameState {
    /// One whole movement tick under the latest sampled `intent`: resolve
    /// the heading, move the chain, eat, grow, detect collisions, and on a
    /// collision restart the round on the spot.
    pub fn tick(&mut self, intent: Option<SnakeDirection>)
        requires
            old(self)@.wf(),
            old(self)@.score < i32::MAX,
        ensures
            final(self)@ == spec_tick(old(self)@, intent),
            final(self)@.wf(),
    {
        self.snake_movement_input(intent);
        self.snake_movement();
        let signals = self.snake_eating();
        let over = self.snake_collision();
        self.snake_grow(signals);
        if over {
            self.game_over();
        }
        proof {
            assert(final(self)@ =~= spec_tick(old(self)@, intent));
            lemma_tick_preserves_wf(old(self)@, intent);
        }
    }
}

} // verus!
