//! Properties of the model that every board satisfies.

use vstd::prelude::*;
use crate::model::{Life, alive_at, decimal, glyph};
use crate::rules::{CellState, next_state};

verus! {

/// A dead cell comes alive exactly when it has three live neighbours.
pub proof fn lemma_rule_from_dead(n: nat)
    ensures
        next_state(CellState::Dead, n) == CellState::Alive <==> n == 3,
        n != 3 ==> next_state(CellState::Dead, n) == CellState::Dead,
{
}

/// A live cell stays alive exactly when it has two or three live neighbours.
pub proof fn lemma_rule_from_alive(n: nat)
    ensures
        next_state(CellState::Alive, n) == CellState::Alive <==> (n == 2 || n == 3),
        !(n == 2 || n == 3) ==> next_state(CellState::Alive, n) == CellState::Dead,
{
}

/// How many of the columns (or rows) `pos - 1`, `pos`, `pos + 1` lie in `[0, len)`.
pub open spec fn span(pos: int, len: int) -> int {
    (if pos > 0 { 1int } else { 0int }) + 1 + (if pos + 1 < len { 1int } else { 0int })
}

proof fn lemma_index_in_grid(width: int, height: int, col: int, row: int)
    requires
        0 <= col < width,
        0 <= row < height,
    ensures
        0 <= row * width + col < width * height,
{
    assert(0 <= row * width + col < width * height) by (nonlinear_arith)
        requires 0 <= col < width, 0 <= row < height;
}

/// An on-grid position of a board whose cells are all alive counts as alive.
proof fn lemma_alive_on_full_board(l: Life, col: int, row: int)
    requires
        l.wf(),
        forall|i: int| 0 <= i < l.cells.len() ==> l.cells[i] == CellState::Alive,
    ensures
        (0 <= col < l.width && 0 <= row < l.height) ==> alive_at(l.cells, l.width as int, l.height as int, col, row) == 1,
{
    if 0 <= col < l.width && 0 <= row < l.height {
        lemma_index_in_grid(l.width as int, l.height as int, col, row);
    }
}

/// The live-neighbour count of an on-grid cell is at most the number of
/// on-grid positions around it (the product of the in-range columns and rows,
/// less the cell itself), and equals it when every cell is alive.
pub proof fn lemma_neighbours_bounded_by_grid(l: Life, col: int, row: int)
    requires
        l.wf(),
        0 <= col < l.width,
        0 <= row < l.height,
    ensures
        l.neighbours(col, row) <= span(col, l.width as int) * span(row, l.height as int) - 1,
        (forall|i: int| 0 <= i < l.cells.len() ==> l.cells[i] == CellState::Alive) ==> l.neighbours(
            col,
            row,
        ) == span(col, l.width as int) * span(row, l.height as int) - 1,
{
    let (w, h) = (l.width as int, l.height as int);
    let (a, b) = (span(col, w), span(row, h));
    assert(a * b == (if b == 1 { a } else if b == 2 { a + a } else { a + a + a })) by (nonlinear_arith)
        requires 1 <= b <= 3;
    if forall|i: int| 0 <= i < l.cells.len() ==> l.cells[i] == CellState::Alive {
        lemma_alive_on_full_board(l, col - 1, row + 1);
        lemma_alive_on_full_board(l, col, row + 1);
        lemma_alive_on_full_board(l, col + 1, row + 1);
        lemma_alive_on_full_board(l, col + 1, row);
        lemma_alive_on_full_board(l, col - 1, row);
        lemma_alive_on_full_board(l, col + 1, row - 1);
        lemma_alive_on_full_board(l, col, row - 1);
        lemma_alive_on_full_board(l, col - 1, row - 1);
    }
}

/// A corner cell has at most 3 live neighbours, a cell on an edge at most 5,
/// any cell at most 8; on a board of at least three columns and three rows
/// whose cells are all alive each bound is reached.
pub proof fn lemma_boundary_neighbour_maxima(l: Life, col: int, row: int)
    requires
        l.wf(),
        0 <= col < l.width,
        0 <= row < l.height,
    ensures
        l.neighbours(col, row) <= 8,
        (col == 0 || col == l.width - 1 || row == 0 || row == l.height - 1) ==> l.neighbours(col, row) <= 5,
        (col == 0 || col == l.width - 1) && (row == 0 || row == l.height - 1) ==> l.neighbours(col, row) <= 3,
        l.width >= 3 && l.height >= 3 && (forall|i: int| 0 <= i < l.cells.len() ==> l.cells[i] == CellState::Alive)
            ==> {
            &&& ((col == 0 || col == l.width - 1) && (row == 0 || row == l.height - 1) ==> l.neighbours(col, row) == 3)
            &&& ((col == 0 || col == l.width - 1) != (row == 0 || row == l.height - 1) ==> l.neighbours(col, row) == 5)
            &&& (0 < col < l.width - 1 && 0 < row < l.height - 1 ==> l.neighbours(col, row) == 8)
        },
{
    let (a, b) = (span(col, l.width as int), span(row, l.height as int));
    assert(a * b == (if b == 1 { a } else if b == 2 { a + a } else { a + a + a })) by (nonlinear_arith)
        requires 1 <= b <= 3;
    lemma_neighbours_bounded_by_grid(l, col, row);
}

/// Stepping keeps the dimensions and the cell count, and counts one generation.
pub proof fn lemma_steps_shape(l: Life, n: nat)
    requires
        l.wf(),
    ensures
        l.steps(n).wf(),
        l.steps(n).width == l.width,
        l.steps(n).height == l.height,
        l.steps(n).iteration == l.iteration + n,
    decreases n,
{
    if n > 0 {
        lemma_steps_shape(l, (n - 1) as nat);
    }
}

/// A board that starts at generation 0 shows `generation: n` after `n` steps.
pub proof fn lemma_generation_label(l: Life, n: nat)
    requires
        l.wf(),
        l.iteration == 0,
    ensures
        l.steps(n).iteration == n,
        l.steps(n).label() == "generation: "@ + decimal(n),
{
    lemma_steps_shape(l, n);
}

/// A board with no live cell has none after one step.
pub proof fn lemma_dead_board_step(l: Life)
    requires
        l.wf(),
        forall|i: int| 0 <= i < l.cells.len() ==> l.cells[i] == CellState::Dead,
    ensures
        forall|i: int| 0 <= i < l.step().cells.len() ==> l.step().cells[i] == CellState::Dead,
{
    let (w, h) = (l.width as int, l.height as int);
    assert forall|c: int, r: int| #[trigger] alive_at(l.cells, w, h, c, r) == 0 by {
        if 0 <= c < w && 0 <= r < h {
            lemma_index_in_grid(w, h, c, r);
        }
    }
}

/// A board with no live cell has none after any number of steps.
pub proof fn lemma_dead_board_stays_dead(l: Life, n: nat)
    requires
        l.wf(),
        forall|i: int| 0 <= i < l.cells.len() ==> l.cells[i] == CellState::Dead,
    ensures
        forall|i: int| 0 <= i < l.steps(n).cells.len() ==> l.steps(n).cells[i] == CellState::Dead,
    decreases n,
{
    if n > 0 {
        lemma_dead_board_stays_dead(l, (n - 1) as nat);
        lemma_steps_shape(l, (n - 1) as nat);
        lemma_dead_board_step(l.steps((n - 1) as nat));
    }
}

/// The text is `height` rows of `width` glyphs, each ended by a newline,
/// followed by the generation label and nothing else.
pub proof fn lemma_render_format(l: Life)
    requires
        l.wf(),
    ensures
        l.text().len() == l.height * (l.width + 1) + l.label().len(),
        forall|row: int| 0 <= row < l.height ==> #[trigger] l.text()[row * (l.width + 1) + l.width] == '\n',
        forall|col: int, row: int|
            0 <= col < l.width && 0 <= row < l.height ==> #[trigger] l.text()[row * (l.width + 1) + col]
                == glyph(l.cell(col, row)) && glyph(l.cell(col, row)) != '\n',
        l.text().subrange((l.height * (l.width + 1)) as int, l.text().len() as int) == l.label(),
{
    let (w, h) = (l.width as int, l.height as int);
    assert forall|row: int| 0 <= row < h implies #[trigger] l.text()[row * (w + 1) + w] == '\n' by {
        vstd::arithmetic::div_mod::lemma_fundamental_div_mod_converse(row * (w + 1) + w, w + 1, row, w);
        assert(row * (w + 1) + w < h * (w + 1)) by (nonlinear_arith)
            requires 0 <= row < h, w >= 0;
    }
    assert forall|col: int, row: int| 0 <= col < w && 0 <= row < h implies #[trigger] l.text()[row * (w + 1) + col]
        == glyph(l.cell(col, row)) && glyph(l.cell(col, row)) != '\n' by {
        vstd::arithmetic::div_mod::lemma_fundamental_div_mod_converse(row * (w + 1) + col, w + 1, row, col);
        assert(0 <= row * (w + 1) + col < h * (w + 1)) by (nonlinear_arith)
            requires 0 <= row < h, 0 <= col < w;
    }
    assert(l.text().subrange(h * (w + 1), l.text().len() as int) =~= l.label());
}

} // verus!
