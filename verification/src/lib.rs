//! The rules of a small climbing game: a player hops up a zig-zag of
//! generated platforms, one committed direction per hop, racing a countdown
//! that refills at checkpoints.
//!
//! Distances are whole playfield units and times are whole milliseconds.

pub mod animation;
pub mod check_point;
pub mod clock;
pub mod countdown;
pub mod decimal;
pub mod game;
pub mod geometry;
pub mod path;
pub mod player;
pub mod score;
pub mod track;
