//! Game rules of a small 2D arcade shooter: a player ship that moves and fires
//! twin lasers, enemies that appear on a cadence and fire back, laser hits that
//! remove both parties, and sprite-sheet explosions.
//!
//! Positions are integers in sub-pixels (`SUBPIXELS_PER_PIXEL` to a pixel), so
//! that one fixed tick of movement is an exact whole number; times are in
//! milliseconds.
pub mod geometry;
pub mod resources;
pub mod entities;
pub mod seqs;
pub mod game;
pub mod player;
pub mod enemy;
pub mod collision;
pub mod explosion;
