use life::{CellState, GameState};

#[test]
#[allow(non_snake_case)]
fn GameState_new_returns_correct_grid_size() {
    assert_eq!(50, GameState::new(5, 10).cells().len());
    assert_eq!(2, GameState::new(1, 2).cells().len());
    assert_eq!(115 * 38, GameState::new(115, 38).cells().len());
}

#[test]
fn get_next_state_test_from_dead() {
    assert_eq!(CellState::Dead, GameState::get_next_state(CellState::Dead, 1));
    assert_eq!(CellState::Dead, GameState::get_next_state(CellState::Dead, 2));

    assert_eq!(CellState::Alive, GameState::get_next_state(CellState::Dead, 3));

    assert_eq!(CellState::Dead, GameState::get_next_state(CellState::Dead, 4));
    assert_eq!(CellState::Dead, GameState::get_next_state(CellState::Dead, 5));
    assert_eq!(CellState::Dead, GameState::get_next_state(CellState::Dead, 6));
    assert_eq!(CellState::Dead, GameState::get_next_state(CellState::Dead, 7));
    assert_eq!(CellState::Dead, GameState::get_next_state(CellState::Dead, 8));
}

#[test]
fn get_next_state_test_from_alive() {
    assert_eq!(CellState::Dead, GameState::get_next_state(CellState::Alive, 1));

    assert_eq!(CellState::Alive, GameState::get_next_state(CellState::Alive, 2));
    assert_eq!(CellState::Alive, GameState::get_next_state(CellState::Alive, 3));

    assert_eq!(CellState::Dead, GameState::get_next_state(CellState::Alive, 4));
    assert_eq!(CellState::Dead, GameState::get_next_state(CellState::Alive, 5));
    assert_eq!(CellState::Dead, GameState::get_next_state(CellState::Alive, 6));
    assert_eq!(CellState::Dead, GameState::get_next_state(CellState::Alive, 7));
    assert_eq!(CellState::Dead, GameState::get_next_state(CellState::Alive, 8));
}
