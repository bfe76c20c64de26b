//! Conway's Game of Life on a bounded, non-wrapping grid of two-state cells.
//!
//! `model` holds the mathematical description of a grid and of one generation
//! step, together with the laws that the step obeys; `board` is the executable
//! grid, whose operations are proved against that description; `text` turns a
//! grid into the lines shown for one frame.
pub mod board;
pub mod model;
pub mod text;

pub use board::Board;
