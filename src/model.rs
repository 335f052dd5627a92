//! The mathematical model of a board: its size, its generation counter and
//! the current state of each cell in row-major order.

use vstd::prelude::*;
use crate::rules::{CellState, next_state};

verus! {

/// A board as a value: `cells[row * width + col]` is the cell at `(col, row)`.
pub struct Life {
    pub width: nat,
    pub height: nat,
    pub iteration: nat,
    pub cells: Seq<CellState>,
}

/// 1 where `(col, row)` lies on the board and that cell is alive, else 0:
/// positions off the board count as dead.
pub open spec fn alive_at(cells: Seq<CellState>, width: int, height: int, col: int, row: int) -> nat {
    if 0 <= col < width && 0 <= row < height && cells[row * width + col] == CellState::Alive {
        1
    } else {
        0
    }
}

/// The number of live cells among the eight Moore neighbours of `(col, row)`.
pub open spec fn live_neighbours(cells: Seq<CellState>, width: int, height: int, col: int, row: int) -> nat {
    alive_at(cells, width, height, col - 1, row + 1)
        + alive_at(cells, width, height, col, row + 1)
        + alive_at(cells, width, height, col + 1, row + 1)
        + alive_at(cells, width, height, col + 1, row)
        + alive_at(cells, width, height, col - 1, row)
        + alive_at(cells, width, height, col + 1, row - 1)
        + alive_at(cells, width, height, col, row - 1)
        + alive_at(cells, width, height, col - 1, row - 1)
}

/// The character that shows a cell.
pub open spec fn glyph(s: CellState) -> char {
    match s {
        CellState::Dead => ' ',
        CellState::Alive => 'o',
    }
}

/// The character of a digit.
pub open spec fn digit_char(d: nat) -> char {
    if d == 0 { '0' }
    else if d == 1 { '1' }
    else if d == 2 { '2' }
    else if d == 3 { '3' }
    else if d == 4 { '4' }
    else if d == 5 { '5' }
    else if d == 6 { '6' }
    else if d == 7 { '7' }
    else if d == 8 { '8' }
    else { '9' }
}

/// The decimal digits of `n`, most significant first, without leading zeros.
pub open spec fn decimal(n: nat) -> Seq<char>
    decreases n,
{
    if n < 10 {
        seq![digit_char(n)]
    } else {
        decimal(n / 10).push(digit_char(n % 10))
    }
}

/// The character at position `i` of the grid's text: each row is `width`
/// glyphs followed by a newline.
pub open spec fn grid_char(cells: Seq<CellState>, width: nat, i: int) -> char {
    let w = width as int;
    if i % (w + 1) == w {
        '\n'
    } else {
        glyph(cells[(i / (w + 1)) * w + i % (w + 1)])
    }
}

impl Life {
    /// The cell sequence covers the whole grid.
    pub open spec fn wf(self) -> bool {
        self.cells.len() == self.width * self.height
    }

    /// The cell at `(col, row)`, for a position on the board.
    pub open spec fn cell(self, col: int, row: int) -> CellState {
        self.cells[row * self.width + col]
    }

    /// Live neighbours of `(col, row)` in the current generation.
    pub open spec fn neighbours(self, col: int, row: int) -> nat {
        live_neighbours(self.cells, self.width as int, self.height as int, col, row)
    }

    /// The cells of the next generation, each computed from the current one.
    pub open spec fn next_cells(self) -> Seq<CellState> {
        Seq::new(
            self.cells.len(),
            |i: int| next_state(self.cells[i], self.neighbours(i % self.width as int, i / self.width as int)),
        )
    }

    /// One generation later.
    pub open spec fn step(self) -> Life {
        Life { iteration: self.iteration + 1, cells: self.next_cells(), ..self }
    }

    /// `n` generations later.
    pub open spec fn steps(self, n: nat) -> Life
        decreases n,
    {
        if n == 0 {
            self
        } else {
            self.steps((n - 1) as nat).step()
        }
    }

    /// The rows of the grid, top row first, each ended by a newline.
    pub open spec fn grid_text(self) -> Seq<char> {
        Seq::new(self.height * (self.width + 1), |i: int| grid_char(self.cells, self.width, i))
    }

    /// The line that follows the grid.
    pub open spec fn label(self) -> Seq<char> {
        "generation: "@ + decimal(self.iteration)
    }

    /// The text snapshot of the current generation.
    pub open spec fn text(self) -> Seq<char> {
        self.grid_text() + self.label()
    }
}

} // verus!
