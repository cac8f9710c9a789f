//! Core engine of a terminal snake game: the body chain, per-tick movement,
//! collision and termination checks, growth on food consumption, and the
//! session state machine. Screen handling and argument parsing live outside
//! the library; randomness enters through a single narrow wrapper.

pub mod color;
pub mod constants;
pub mod food;
pub mod player;
mod rng;
pub mod snake;
