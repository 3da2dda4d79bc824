//! Data model of the game: grid positions, the snake's heading, and the
//! arena's fixed dimensions.

use vstd::prelude::*;

verus! {

/// Number of grid cells along the x axis of the arena.
pub const ARENA_WIDTH: i32 = 20;

/// Number of grid cells along the y axis of the arena.
pub const ARENA_HEIGHT: i32 = 20;

/// Period of the movement tick, in milliseconds.
pub const SNAKE_SPEED_MS: u64 = 120;

/// A grid cell, addressed by exact integer coordinates.
#[derive(Clone, Copy, PartialEq, Eq, Structural, Debug)]
pub struct Position {
    pub x: i32,
    pub y: i32,
}

/// The snake's current heading, one cell per movement tick.
#[derive(Clone, Copy, PartialEq, Eq, Structural, Debug)]
pub enum SnakeDirection {
    Left,
    Up,
    Right,
    Down,
}

/// The direction exactly opposite to `d`.
pub open spec fn opposite_dir(d: SnakeDirection) -> SnakeDirection {
    match d {
        SnakeDirection::Left => SnakeDirection::Right,
        SnakeDirection::Right => SnakeDirection::Left,
        SnakeDirection::Up => SnakeDirection::Down,
        SnakeDirection::Down => SnakeDirection::Up,
    }
}

impl SnakeDirection {
    /// The direction exactly opposite to `self`.
    pub fn opposite(self) -> (r: Self)
        ensures
            r == opposite_dir(self),
    {
        match self {
            Self::Left => Self::Right,
            Self::Right => Self::Left,
            Self::Up => Self::Down,
            Self::Down => Self::Up,
        }
    }
}

impl Default for SnakeDirection {
    /// A fresh snake heads up.
    fn default() -> (r: Self)
        ensures
            r == SnakeDirection::Up,
    {
        SnakeDirection::Up
    }
}

/// The snake entity proper: it carries the current heading.
#[derive(Clone, Copy, PartialEq, Eq, Structural, Debug)]
pub struct Snake {
    pub direction: SnakeDirection,
}

/// Whether `p` lies inside the half-open arena box `[0, w) x [0, h)`.
pub open spec fn in_bounds(p: Position, w: int, h: int) -> bool {
    &&& 0 <= p.x < w
    &&& 0 <= p.y < h
}

} // verus!
