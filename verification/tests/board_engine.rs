use tic_tac::game_logic::{GameEngine, GameError};
use tic_tac::game_state::{Board, Player};

fn board_from(cells: &[Option<Player>]) -> Board {
    assert_eq!(cells.len(), 9);
    let mut b = Board::new();
    b.cells = cells.to_vec();
    b
}

#[test]
fn move_on_empty_cell_places_mark() {
    let mut b = Board::new();
    let r = GameEngine::make_move(&mut b, 4, Player::X);
    assert!(r.is_ok());
    assert_eq!(b.cells[4], Some(Player::X));
    for i in 0..9 {
        if i != 4 {
            assert_eq!(b.cells[i], None);
        }
    }
}

#[test]
fn move_on_occupied_cell_is_rejected_and_board_unchanged() {
    let mut b = Board::new();
    GameEngine::make_move(&mut b, 0, Player::X).unwrap();
    let before = b.cells.clone();
    let r = GameEngine::make_move(&mut b, 0, Player::O);
    assert!(matches!(r, Err(GameError::PositionOccupied)));
    assert_eq!(b.cells, before);
}

#[test]
fn move_out_of_range_is_rejected() {
    let mut b = Board::new();
    let r = GameEngine::make_move(&mut b, 9, Player::X);
    assert!(matches!(r, Err(GameError::InvalidPosition)));
    assert!(b.cells.iter().all(|c| c.is_none()));
}

#[test]
fn winner_in_a_row() {
    let x = Some(Player::X);
    let o = Some(Player::O);
    let b = board_from(&[x, x, x, o, o, None, None, None, None]);
    assert_eq!(GameEngine::check_winner(&b), Some(Player::X));
}

#[test]
fn winner_in_a_column() {
    let x = Some(Player::X);
    let o = Some(Player::O);
    let b = board_from(&[x, o, None, x, o, None, None, o, None]);
    assert_eq!(GameEngine::check_winner(&b), Some(Player::O));
}

#[test]
fn winner_on_both_diagonals() {
    let x = Some(Player::X);
    let o = Some(Player::O);
    let main_diag = board_from(&[x, o, None, o, x, None, None, None, x]);
    assert_eq!(GameEngine::check_winner(&main_diag), Some(Player::X));
    let anti_diag = board_from(&[x, None, o, x, o, None, o, None, None]);
    assert_eq!(GameEngine::check_winner(&anti_diag), Some(Player::O));
}

#[test]
fn full_board_without_line_is_a_draw() {
    let x = Some(Player::X);
    let o = Some(Player::O);
    // X O X / X O O / O X X: no three-in-a-row anywhere.
    let b = board_from(&[x, o, x, x, o, o, o, x, x]);
    assert_eq!(GameEngine::check_winner(&b), None);
    assert!(GameEngine::is_board_full(&b));
}

#[test]
fn empty_board_has_no_winner_and_is_not_full() {
    let b = Board::new();
    assert_eq!(GameEngine::check_winner(&b), None);
    assert!(!GameEngine::is_board_full(&b));
}
