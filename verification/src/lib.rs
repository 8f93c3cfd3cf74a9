//! Core logic of a terminal snake game: a player-steered path grows by
//! eating food on a fixed 80x50 grid, ends on wall or self collision, and
//! keeps a score across a menu / playing / end-screen cycle.
//!
//! Everything that decides or computes lives here and is verified; the
//! display surface (window setup, key polling, drawing) is a thin unverified
//! shell that feeds key presses in and carries draw commands out.

pub mod food;
pub mod game;
pub mod grid;
mod rng;
pub mod snake;
