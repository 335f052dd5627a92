//! The two states of a cell and the fixed transition rule.

use vstd::prelude::*;

verus! {

/// The state of one cell in one generation.
#[derive(Debug, Clone, Copy, PartialEq, Eq, Structural)]
pub enum CellState {
    Dead,
    Alive,
}

impl Default for CellState {
    fn default() -> (r: Self)
        ensures
            r == CellState::Dead,
    {
        CellState::Dead
    }
}

/// The state that `from` gives for a boolean.
pub open spec fn state_of(alive: bool) -> CellState {
    if alive {
        CellState::Alive
    } else {
        CellState::Dead
    }
}

/// The classic rule: a dead cell with exactly three live neighbours is born,
/// a live cell with two or three live neighbours survives, every other cell
/// is dead in the next generation.
pub open spec fn next_state(current: CellState, live_neighbours: nat) -> CellState {
    match current {
        CellState::Dead => if live_neighbours == 3 {
            CellState::Alive
        } else {
            CellState::Dead
        },
        CellState::Alive => if live_neighbours == 2 || live_neighbours == 3 {
            CellState::Alive
        } else {
            CellState::Dead
        },
    }
}

impl CellState {
    /// `true` is `Alive`, `false` is `Dead`.
    pub fn from(b: bool) -> (r: Self)
        ensures
            r == state_of(b),
    {
        match b {
            true => CellState::Alive,
            false => CellState::Dead,
        }
    }
}

} // verus!
