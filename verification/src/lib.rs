//! Conway's game of life on a bounded grid.
//!
//! `board` holds the mathematical model of a generation and of the step to
//! the next one, `conway` the grid that programs work with, `laws` what is
//! proved of every board, and `driver` the decisions of an interactive
//! program that shows the grid in a window.

pub mod board;
pub mod conway;
pub mod driver;
pub mod laws;
