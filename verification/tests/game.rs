use snake_core::food::FoodTimer;
use snake_core::game::GameState;
use snake_core::models::{Position, Snake, SnakeDirection};

fn pos(x: i32, y: i32) -> Position {
    Position { x, y }
}

fn state(head: Position, tail: Vec<Position>, direction: SnakeDirection) -> GameState {
    let mut segments = vec![head];
    segments.extend(tail);
    GameState {
        width: 20,
        height: 20,
        snake: Snake { direction },
        segments,
        foods: Vec::new(),
        score: 0,
        high_score: 0,
    }
}

#[test]
fn movement_advances_head_and_chain() {
    let mut game = state(pos(3, 3), vec![pos(3, 2)], SnakeDirection::Up);
    game.tick(None);
    assert_eq!(game.segments, vec![pos(3, 4), pos(3, 3)]);
    assert_eq!(game.snake.direction, SnakeDirection::Up);
    assert_eq!(game.score, 0);
}

#[test]
fn reversal_intent_is_rejected() {
    let mut game = state(pos(3, 3), vec![pos(3, 2)], SnakeDirection::Up);
    game.tick(Some(SnakeDirection::Down));
    assert_eq!(game.snake.direction, SnakeDirection::Up);
    assert_eq!(game.segments, vec![pos(3, 4), pos(3, 3)]);
}

#[test]
fn sideways_intent_is_adopted() {
    let mut game = state(pos(3, 3), vec![pos(3, 2)], SnakeDirection::Up);
    game.tick(Some(SnakeDirection::Left));
    assert_eq!(game.snake.direction, SnakeDirection::Left);
    assert_eq!(game.segments, vec![pos(2, 3), pos(3, 3)]);
}

#[test]
fn opposite_swaps_each_axis() {
    assert_eq!(SnakeDirection::Left.opposite(), SnakeDirection::Right);
    assert_eq!(SnakeDirection::Right.opposite(), SnakeDirection::Left);
    assert_eq!(SnakeDirection::Up.opposite(), SnakeDirection::Down);
    assert_eq!(SnakeDirection::Down.opposite(), SnakeDirection::Up);
    assert_eq!(SnakeDirection::default(), SnakeDirection::Up);
}

#[test]
fn wall_exit_triggers_restart() {
    let mut game = state(pos(19, 4), vec![pos(18, 4)], SnakeDirection::Right);
    game.foods.push(pos(10, 10));
    game.tick(None);
    assert_eq!(game.segments, vec![pos(3, 3), pos(3, 2)]);
    assert_eq!(game.snake.direction, SnakeDirection::Up);
    assert_eq!(game.score, 0);
    assert!(game.foods.is_empty());
}

#[test]
fn self_collision_triggers_restart() {
    let mut game = state(pos(4, 4), vec![pos(4, 5), pos(0, 0)], SnakeDirection::Up);
    game.tick(None);
    assert_eq!(game.segments, vec![pos(3, 3), pos(3, 2)]);
    assert_eq!(game.score, 0);
    assert!(game.foods.is_empty());
}

#[test]
fn eating_grows_and_scores() {
    let mut game = state(pos(3, 3), vec![pos(3, 2)], SnakeDirection::Up);
    game.foods.push(pos(3, 4));
    game.tick(None);
    assert!(game.foods.is_empty());
    assert_eq!(game.segments, vec![pos(3, 4), pos(3, 3), pos(3, 3)]);
    assert_eq!(game.score, 1);
}

#[test]
fn coincident_foods_grow_once() {
    let mut game = state(pos(3, 3), vec![pos(3, 2)], SnakeDirection::Up);
    game.foods.push(pos(3, 4));
    game.foods.push(pos(3, 4));
    game.tick(None);
    assert!(game.foods.is_empty());
    assert_eq!(game.segments.len(), 3);
    assert_eq!(game.score, 1);
}

#[test]
fn food_elsewhere_is_untouched() {
    let mut game = state(pos(3, 3), vec![pos(3, 2)], SnakeDirection::Up);
    game.foods.push(pos(5, 5));
    game.foods.push(pos(3, 3));
    game.tick(None);
    assert_eq!(game.foods, vec![pos(5, 5), pos(3, 3)]);
    assert_eq!(game.segments.len(), 2);
    assert_eq!(game.score, 0);
}

#[test]
fn high_score_folds_up_on_game_over() {
    let mut game = state(pos(19, 4), vec![pos(18, 4)], SnakeDirection::Right);
    game.score = 7;
    game.high_score = 5;
    game.tick(None);
    assert_eq!(game.high_score, 7);
    assert_eq!(game.score, 0);
}

#[test]
fn high_score_keeps_larger_value_on_game_over() {
    let mut game = state(pos(19, 4), vec![pos(18, 4)], SnakeDirection::Right);
    game.score = 3;
    game.high_score = 5;
    game.tick(None);
    assert_eq!(game.high_score, 5);
    assert_eq!(game.score, 0);
}

#[test]
fn high_score_never_decreases() {
    let mut game = GameState::new(20, 20);
    game.foods.push(pos(3, 4));
    let mut best = game.high_score;
    for step in 0..60 {
        let intent = match step % 3 {
            0 => None,
            1 => Some(SnakeDirection::Right),
            _ => Some(SnakeDirection::Up),
        };
        game.tick(intent);
        assert!(game.high_score >= best);
        best = game.high_score;
    }
}

#[test]
fn new_game_starts_canonically() {
    let game = GameState::new(20, 20);
    assert_eq!(game.segments, vec![pos(3, 3), pos(3, 2)]);
    assert_eq!(game.snake.direction, SnakeDirection::Up);
    assert_eq!(game.score, 0);
    assert_eq!(game.high_score, 0);
    assert!(game.foods.is_empty());
    assert_eq!(game.width, 20);
    assert_eq!(game.height, 20);
}

#[test]
fn spawned_food_lands_in_bounds() {
    let mut game = GameState::new(20, 20);
    for _ in 0..200 {
        game.spawn_food();
    }
    assert_eq!(game.foods.len(), 200);
    for food in &game.foods {
        assert!(0 <= food.x && food.x < 20);
        assert!(0 <= food.y && food.y < 20);
    }
}

#[test]
fn spawn_periods_stay_in_startup_range() {
    for _ in 0..100 {
        let timer = FoodTimer::new();
        assert!(500 <= timer.period_ms && timer.period_ms < 3500);
        assert_eq!(timer.elapsed_ms, 0);
    }
}

#[test]
fn food_timer_fires_when_period_elapses() {
    let mut timer = FoodTimer {
        period_ms: 1000,
        elapsed_ms: 0,
    };
    assert!(!timer.advance(999));
    assert_eq!(timer.elapsed_ms, 999);
    assert!(timer.advance(1));
    assert_eq!(timer.elapsed_ms, 0);
    assert!(timer.advance(2500));
    assert_eq!(timer.elapsed_ms, 500);
}
