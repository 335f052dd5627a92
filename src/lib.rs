//! Conway's Game of Life on a bounded, double-buffered grid.

pub mod rules;
pub mod model;
pub mod game;
mod text;
pub mod laws;

pub use game::{Cell, GameState, GridSize};
pub use rules::CellState;
