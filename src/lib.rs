//! A snake game on a discrete grid: movement, growth, food placement and
//! collision rules, with the per-tick game logic as a verified state step.

pub mod apple;
pub mod game;
pub mod geometry;
pub mod snake;
