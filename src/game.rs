//! The engine: a double-buffered grid of cells that advances one generation
//! at a time and renders itself as text.

use vstd::prelude::*;
use crate::model::{Life, grid_char};
use crate::text::append_decimal;
use vstd::string::StringExecFns;
use crate::rules::{CellState, next_state, state_of};

verus! {

/// Relies on rand::random: one boolean from the thread-local generator.
/// Nothing is assumed of its value.
#[verifier::external_body]
fn random_bool() -> bool {
    rand::random::<bool>()
}

/// The dimensions of a grid, fixed once it is made.
#[derive(Debug)]
pub struct GridSize {
    width: usize,
    height: usize,
}

impl GridSize {
    /// Row-major index of an on-grid position.
    fn offset(&self, col: usize, row: usize) -> (r: usize)
        requires
            col < self.width,
            row < self.height,
            self.width * self.height <= usize::MAX,
        ensures
            r == row * self.width + col,
            r < self.width * self.height,
    {
        proof {
            let (w, h, c, rr) = (self.width as int, self.height as int, col as int, row as int);
            assert(rr * w + c < w * h) by (nonlinear_arith)
                requires 0 <= c < w, 0 <= rr < h;
        }
        row * self.width + col
    }
}

/// One cell: the state shown in this generation, and a buffer that receives
/// the state of the next one.
#[derive(Debug, Clone, Copy)]
pub struct Cell {
    current: CellState,
    next: CellState,
}

impl View for Cell {
    /// `(current, next)`.
    type V = (CellState, CellState);

    closed spec fn view(&self) -> (CellState, CellState) {
        (self.current, self.next)
    }
}

impl Cell {
    /// Exchanges the current state and the buffer.
    pub fn swap(&mut self)
        ensures
            final(self)@ == (old(self)@.1, old(self)@.0),
    {
        std::mem::swap(&mut self.current, &mut self.next);
    }

    /// A cell whose current state is given by `alive`, with a dead buffer.
    pub fn new(alive: bool) -> (r: Self)
        ensures
            r@ == (state_of(alive), CellState::Dead),
    {
        Cell { current: CellState::from(alive), next: CellState::Dead }
    }
}

/// A board: its size, its cells in row-major order and the number of
/// generations it has advanced.
#[derive(Debug)]
pub struct GameState {
    iteration: usize,
    size: GridSize,
    cells: Vec<Cell>,
}

impl View for GameState {
    type V = Life;

    closed spec fn view(&self) -> Life {
        Life {
            width: self.size.width as nat,
            height: self.size.height as nat,
            iteration: self.iteration as nat,
            cells: self.cells@.map_values(|c: Cell| c.current),
        }
    }
}

impl GameState {
    /// There is one cell for each position of the grid.
    pub open spec fn wf(&self) -> bool {
        self@.wf()
    }

    /// The rule applied to one cell.
    pub fn get_next_state(current: CellState, live_neighbours: usize) -> (r: CellState)
        ensures
            r == next_state(current, live_neighbours as nat),
    {
        match current {
            CellState::Dead => match live_neighbours {
                3 => CellState::Alive,
                _ => CellState::Dead,
            },
            CellState::Alive => match live_neighbours {
                2 => CellState::Alive,
                3 => CellState::Alive,
                _ => CellState::Dead,
            },
        }
    }

    /// The current state at `(col, row)`, or `None` off the grid.
    pub fn get_cell(&self, col: usize, row: usize) -> (r: Option<CellState>)
        requires
            self.wf(),
        ensures
            r == (if col < self@.width && row < self@.height {
                Some(self@.cell(col as int, row as int))
            } else {
                None
            }),
    {
        if col >= self.size.width {
            return None;
        }
        if row >= self.size.height {
            return None;
        }
        proof {
            assert(self.cells.len() == self.cells@.len());
        }
        let offset = self.size.offset(col, row);
        Some(self.cells[offset].current)
    }

    /// What a looked-up neighbour adds to the count.
    fn get_count(state: Option<CellState>) -> (r: usize)
        ensures
            r == (if state == Some(CellState::Alive) { 1usize } else { 0usize }),
    {
        match state {
            None => 0,
            Some(CellState::Alive) => 1,
            Some(CellState::Dead) => 0,
        }
    }

    /// The number of live Moore neighbours of an on-grid cell; positions off
    /// the grid count as dead.
    fn get_live_neighbours(&self, col: usize, row: usize) -> (r: usize)
        requires
            self.wf(),
            col < self@.width,
            row < self@.height,
        ensures
            r == self@.neighbours(col as int, row as int),
    {
        let ul = if col > 0 { self.get_cell(col - 1, row + 1) } else { None };
        let um = self.get_cell(col, row + 1);
        let ur = self.get_cell(col + 1, row + 1);
        let r = self.get_cell(col + 1, row);
        let l = if col > 0 { self.get_cell(col - 1, row) } else { None };
        let lr = if row > 0 { self.get_cell(col + 1, row - 1) } else { None };
        let lm = if row > 0 { self.get_cell(col, row - 1) } else { None };
        let ll = if col > 0 && row > 0 { self.get_cell(col - 1, row - 1) } else { None };

        Self::get_count(ul) + Self::get_count(um) + Self::get_count(ur)
            + Self::get_count(r) + Self::get_count(l)
            + Self::get_count(lr) + Self::get_count(lm) + Self::get_count(ll)
    }

    /// Advances the board by one generation and counts it.
    pub fn step(&mut self)
        requires
            old(self).wf(),
            old(self)@.iteration < usize::MAX,
        ensures
            final(self).wf(),
            final(self)@ == old(self)@.step(),
    {
        self.iteration += 1;
        proof {
            assert(self@.next_cells() == old(self)@.next_cells());
        }
        Self::step_cells(self);
    }

    /// Computes every cell's successor from a frozen current generation,
    /// then commits all of them at once.
    fn step_cells(state: &mut GameState)
        requires
            old(state).wf(),
        ensures
            final(state).wf(),
            final(state)@ == (Life { cells: old(state)@.next_cells(), ..old(state)@ }),
    {
        let ghost before = state@;
        let n = state.cells.len();
        let w = state.size.width;
        let mut i: usize = 0;
        while i < n
            invariant
                n == state.cells@.len(),
                w == state.size.width,
                state@ == before,
                before.wf(),
                i <= n,
                forall|j: int| 0 <= j < i ==> #[trigger] state.cells@[j].next == before.next_cells()[j],
            decreases n - i,
        {
            proof {
                if w == 0 {
                    assert(before.width * before.height == 0) by (nonlinear_arith)
                        requires before.width == 0;
                }
            }
            let col = i % w;
            let row = i / w;
            proof {
                let (ii, ww, hh, q, r) = (i as int, w as int, before.height as int, row as int, col as int);
                vstd::arithmetic::div_mod::lemma_fundamental_div_mod(ii, ww);
                assert(q < hh) by (nonlinear_arith)
                    requires ii == ww * q + r, 0 <= r < ww, ii < ww * hh, q >= 0;
            }
            let live = state.get_live_neighbours(col, row);
            let current = state.cells[i].current;
            state.cells[i].next = Self::get_next_state(current, live);
            proof {
                assert(state.cells@.map_values(|c: Cell| c.current) =~= before.cells);
            }
            i += 1;
        }

        let ghost computed = state.cells@;
        let mut i: usize = 0;
        while i < n
            invariant
                n == state.cells@.len(),
                n == computed.len(),
                state.size == old(state).size,
                state.iteration == old(state).iteration,
                i <= n,
                forall|j: int| 0 <= j < i ==> #[trigger] state.cells@[j].current == computed[j].next,
                forall|j: int| i <= j < n ==> #[trigger] state.cells@[j] == computed[j],
            decreases n - i,
        {
            state.cells[i].swap();
            i += 1;
        }
        proof {
            assert(state.cells@.map_values(|c: Cell| c.current) =~= before.next_cells());
        }
    }

    /// The rows of the current generation, top row first, one character per
    /// column (`'o'` alive, `' '` dead), each ended by a newline, followed by
    /// `generation: <iteration>`.
    pub fn render(&self) -> (r: String)
        requires
            self.wf(),
        ensures
            r@ == self@.text(),
    {
        let ghost model = self@;
        let ghost w1: int = model.width as int + 1;
        let mut result = String::new();
        let mut row: usize = 0;
        while row < self.size.height
            invariant
                self.wf(),
                model == self@,
                w1 == model.width as int + 1,
                row <= model.height,
                result@ =~= Seq::new((row * w1) as nat, |i: int| grid_char(model.cells, model.width, i)),
            decreases self.size.height - row,
        {
            let mut col: usize = 0;
            while col < self.size.width
                invariant
                    self.wf(),
                    model == self@,
                    w1 == model.width as int + 1,
                    row < model.height,
                    col <= model.width,
                    result@ =~= Seq::new(
                        (row * w1 + col) as nat,
                        |i: int| grid_char(model.cells, model.width, i),
                    ),
                decreases self.size.width - col,
            {
                let cell = self.get_cell(col, row).unwrap();
                let chr = match cell {
                    CellState::Dead => " ",
                    CellState::Alive => "o",
                };
                proof {
                    reveal_strlit(" ");
                    reveal_strlit("o");
                    let k = row * w1 + col;
                    vstd::arithmetic::div_mod::lemma_fundamental_div_mod_converse(
                        k, w1, row as int, col as int);
                    assert(chr@ =~= seq![grid_char(model.cells, model.width, k)]);
                }
                result.append(chr);
                col += 1;
            }
            proof {
                reveal_strlit("\n");
                let k = row * w1 + model.width;
                vstd::arithmetic::div_mod::lemma_fundamental_div_mod_converse(
                    k, w1, row as int, model.width as int);
                assert((row + 1) * w1 == row * w1 + w1) by (nonlinear_arith);
            }
            result.append("\n");
            row += 1;
        }
        proof {
            assert(result@ =~= model.grid_text());
        }
        result.append("generation: ");
        append_decimal(&mut result, self.iteration);
        proof {
            assert(result@ =~= model.text());
        }
        result
    }

    /// A board of `width` columns and `height` rows at generation 0 whose
    /// cell at `(col, row)` is alive where `alive[row * width + col]` holds.
    pub fn with_pattern(width: usize, height: usize, alive: &Vec<bool>) -> (r: Self)
        requires
            alive@.len() == width * height,
        ensures
            r.wf(),
            r@ == (Life {
                width: width as nat,
                height: height as nat,
                iteration: 0,
                cells: alive@.map_values(|b: bool| state_of(b)),
            }),
    {
        let mut cells: Vec<Cell> = Vec::new();
        let mut i: usize = 0;
        while i < alive.len()
            invariant
                i <= alive@.len(),
                cells@.len() == i,
                forall|j: int| 0 <= j < i ==> #[trigger] cells@[j].current == state_of(alive@[j]),
            decreases alive.len() - i,
        {
            cells.push(Cell::new(alive[i]));
            i += 1;
        }
        let r = GameState { iteration: 0, size: GridSize { width, height }, cells };
        proof {
            assert(r@.cells =~= alive@.map_values(|b: bool| state_of(b)));
        }
        r
    }

    /// A board of `width` columns and `height` rows at generation 0 whose
    /// cells are each drawn alive or dead at random.
    pub fn new(width: usize, height: usize) -> (r: Self)
        requires
            width * height <= usize::MAX,
        ensures
            r.wf(),
            r@.width == width,
            r@.height == height,
            r@.iteration == 0,
            r@.cells.len() == width * height,
    {
        let n = width * height;
        let mut alive: Vec<bool> = Vec::new();
        let mut i: usize = 0;
        while i < n
            invariant
                i <= n,
                alive@.len() == i,
            decreases n - i,
        {
            alive.push(random_bool());
            i += 1;
        }
        Self::with_pattern(width, height, &alive)
    }

    /// The number of generations advanced so far.
    pub fn iteration(&self) -> (r: usize)
        ensures
            r == self@.iteration,
    {
        self.iteration
    }

    /// The number of columns.
    pub fn width(&self) -> (r: usize)
        ensures
            r == self@.width,
    {
        self.size.width
    }

    /// The number of rows.
    pub fn height(&self) -> (r: usize)
        ensures
            r == self@.height,
    {
        self.size.height
    }

    /// The cells in row-major order.
    pub fn cells(&self) -> (r: &Vec<Cell>)
        ensures
            r@.len() == self@.cells.len(),
            forall|i: int| 0 <= i < r@.len() ==> (#[trigger] r@[i])@.0 == self@.cells[i],
    {
        &self.cells
    }
}

} // verus!
