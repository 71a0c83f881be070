//! Rule engine of a falling-block puzzle game: an occupancy grid, a fixed
//! catalog of piece shapes, row clearing, score and level progression, and
//! the state machine of one game session.

pub mod consts;
pub mod bricks;
pub mod board;
pub mod rules;
pub mod game;
