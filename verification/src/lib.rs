//! Conway's Game of Life.
//!
//! The crate holds the simulation engine of the cellular automaton: the board,
//! the neighbour count, the step from one generation to the next, and the
//! session state that turns input events into engine commands. Drawing and
//! input polling are left to the program that embeds the library.

pub mod life;
pub mod laws;
pub mod game;
pub mod config;
pub mod session;
