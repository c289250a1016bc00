//! A sliding-tile puzzle: a grid with one empty cell, the four moves that
//! slide a neighbouring tile into it, a shuffle and the check for the solved
//! configuration, with the laws that hold of every board.

pub mod board;
pub mod game;
pub mod io;
pub mod laws;
mod random;
