use life::{Cell, CellState, GameState};

fn board(width: usize, height: usize, live: &[(usize, usize)]) -> GameState {
    let mut alive = vec![false; width * height];
    for &(col, row) in live {
        alive[row * width + col] = true;
    }
    GameState::with_pattern(width, height, &alive)
}

fn live_cells(g: &GameState) -> Vec<(usize, usize)> {
    let mut out = Vec::new();
    for row in 0..g.height() {
        for col in 0..g.width() {
            if g.get_cell(col, row) == Some(CellState::Alive) {
                out.push((col, row));
            }
        }
    }
    out
}

#[test]
fn new_starts_at_generation_zero() {
    let g = GameState::new(7, 3);
    assert_eq!(g.iteration(), 0);
    assert_eq!(g.width(), 7);
    assert_eq!(g.height(), 3);
    assert!(g.render().ends_with("\ngeneration: 0"));
}

#[test]
fn zero_sized_board_is_empty() {
    let g = GameState::new(0, 4);
    assert_eq!(g.cells().len(), 0);
    let mut h = GameState::new(3, 0);
    h.step();
    assert_eq!(h.render(), "generation: 1");
}

#[test]
fn blinker_oscillates_with_period_two() {
    let mut g = board(5, 5, &[(1, 2), (2, 2), (3, 2)]);
    g.step();
    assert_eq!(live_cells(&g), vec![(2, 1), (2, 2), (2, 3)]);
    g.step();
    assert_eq!(live_cells(&g), vec![(1, 2), (2, 2), (3, 2)]);
}

#[test]
fn all_dead_board_stays_dead() {
    let mut g = board(6, 4, &[]);
    for _ in 0..5 {
        g.step();
    }
    assert!(live_cells(&g).is_empty());
    assert_eq!(g.iteration(), 5);
}

#[test]
fn full_board_keeps_only_corners() {
    // every cell alive: corners see 3, edges 5, the centre 8
    let all: Vec<(usize, usize)> = (0..3).flat_map(|r| (0..3).map(move |c| (c, r))).collect();
    let mut g = board(3, 3, &all);
    g.step();
    assert_eq!(live_cells(&g), vec![(0, 0), (2, 0), (0, 2), (2, 2)]);
}

#[test]
fn edge_cell_with_five_live_neighbours_dies() {
    // (1, 0) is on the top edge of a 3x2 board with all five neighbours alive
    let mut g = board(3, 2, &[(0, 0), (1, 0), (2, 0), (0, 1), (1, 1), (2, 1)]);
    g.step();
    assert_eq!(g.get_cell(1, 0), Some(CellState::Dead));
    assert_eq!(g.get_cell(0, 0), Some(CellState::Alive));
}

#[test]
fn dead_cell_with_three_neighbours_is_born() {
    let mut g = board(3, 3, &[(0, 0), (2, 0), (1, 2)]);
    g.step();
    assert_eq!(live_cells(&g), vec![(1, 1)]);
}

#[test]
fn no_wraparound_at_edges() {
    // a vertical line on the left edge must not feed the right edge
    let mut g = board(4, 3, &[(0, 0), (0, 1), (0, 2)]);
    g.step();
    assert_eq!(live_cells(&g), vec![(0, 1), (1, 1)]);
}

#[test]
fn render_exact_text() {
    let g = board(3, 2, &[(0, 0), (2, 0), (1, 1)]);
    assert_eq!(g.render(), "o o\n o \ngeneration: 0");
}

#[test]
fn render_rows_have_board_width() {
    let g = GameState::new(9, 4);
    let text = g.render();
    let lines: Vec<&str> = text.split('\n').collect();
    assert_eq!(lines.len(), 5);
    for line in &lines[..4] {
        assert_eq!(line.chars().count(), 9);
        assert!(line.chars().all(|c| c == 'o' || c == ' '));
    }
    assert_eq!(lines[4], "generation: 0");
}

#[test]
fn generation_label_counts_steps() {
    let mut g = board(2, 2, &[(0, 0)]);
    for _ in 0..12 {
        g.step();
    }
    assert_eq!(g.iteration(), 12);
    assert_eq!(g.render(), "  \n  \ngeneration: 12");
}

#[test]
fn get_cell_off_grid_is_none() {
    let g = board(2, 3, &[(1, 2)]);
    assert_eq!(g.get_cell(1, 2), Some(CellState::Alive));
    assert_eq!(g.get_cell(0, 0), Some(CellState::Dead));
    assert_eq!(g.get_cell(2, 0), None);
    assert_eq!(g.get_cell(0, 3), None);
}

#[test]
fn cell_state_from_bool_and_default() {
    assert_eq!(CellState::from(true), CellState::Alive);
    assert_eq!(CellState::from(false), CellState::Dead);
    assert_eq!(CellState::default(), CellState::Dead);
}

#[test]
fn cell_new_and_swap() {
    let mut c = Cell::new(true);
    assert_eq!(format!("{:?}", c), "Cell { current: Alive, next: Dead }");
    c.swap();
    assert_eq!(format!("{:?}", c), "Cell { current: Dead, next: Alive }");
    c.swap();
    assert_eq!(format!("{:?}", c), "Cell { current: Alive, next: Dead }");
}
