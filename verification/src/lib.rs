//! Conway's Game of Life on a fixed-size grid whose edges wrap around.

pub mod cell;
pub mod greeting;
pub mod grid;
pub mod laws;
pub mod universe;

pub use cell::Cell;
pub use greeting::greet;
pub use grid::Grid;
pub use universe::Universe;
