//! Core of a grid-based snake game: a snake of ordered segments moves on a
//! fixed discrete arena, eats spawned food, grows on eating, tracks score and
//! high score, and restarts on wall exit or self-collision.
//!
//! The library holds the per-tick state machine (direction resolution,
//! movement, eating, growth, collision, game over) as verified code; input
//! sampling and rendering live outside it.

pub mod food;
pub mod game;
pub mod laws;
pub mod models;
