//! Grid snake simulation: a fixed 20 x 20 board, a snake that advances one
//! cell per tick, direction buffering that refuses instant reversal, food
//! consumption with deferred growth, and wall / self collision detection.
//!
//! The simulation itself is pure integer logic and fully verified; the thin
//! browser and engine bindings around it live outside this crate.

pub mod board;
pub mod canvas;
pub mod dom;
pub mod logic;
pub mod snake;
pub mod sprites;
