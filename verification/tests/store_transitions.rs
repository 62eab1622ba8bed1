use tic_tac::game_logic::GameError;
use tic_tac::game_manager::{create_game, join_game, make_move, store_key, RETENTION_SECONDS};
use tic_tac::game_state::{GameState, GameStatus, Player};

fn s(v: &str) -> String {
    String::from(v)
}

fn fresh_joined_game() -> GameState {
    let created = create_game(&None, s("alice"), s("sess-a"), s("g1"), 1000).unwrap();
    join_game(Some(created), s("bob"), s("sess-b")).unwrap()
}

#[test]
fn create_game_writes_a_waiting_record() {
    let g = create_game(&None, s("alice"), s("sess-a"), s("g1"), 1234).unwrap();
    assert_eq!(g.id, "g1");
    assert_eq!(g.player1_id, "alice");
    assert_eq!(g.player2_id, None);
    assert_eq!(g.player1_session, "sess-a");
    assert_eq!(g.player2_session, None);
    assert_eq!(g.current_turn, Some(s("alice")));
    assert_eq!(g.status, GameStatus::Waiting);
    assert_eq!(g.winner, None);
    assert_eq!(g.created_at, 1234);
    assert!(g.board.cells.iter().all(|c| c.is_none()));
}

#[test]
fn create_game_over_live_record_fails() {
    let g = create_game(&None, s("alice"), s("sess-a"), s("g1"), 1).unwrap();
    let r = create_game(&Some(g), s("carol"), s("sess-c"), s("g1"), 2);
    assert!(matches!(r, Err(GameError::AlreadyExists)));
}

#[test]
fn join_missing_game_fails_not_found() {
    let r = join_game(None, s("bob"), s("sess-b"));
    assert!(matches!(r, Err(GameError::NotFound)));
}

#[test]
fn join_succeeds_exactly_once() {
    let created = create_game(&None, s("alice"), s("sess-a"), s("g1"), 1).unwrap();
    let joined = join_game(Some(created), s("bob"), s("sess-b")).unwrap();
    assert_eq!(joined.status, GameStatus::InProgress);
    assert_eq!(joined.player2_id, Some(s("bob")));
    assert_eq!(joined.player2_session, Some(s("sess-b")));
    assert_eq!(joined.current_turn, Some(s("alice")));
    let again = join_game(Some(joined), s("carol"), s("sess-c"));
    assert!(matches!(again, Err(GameError::InvalidState)));
}

#[test]
fn move_on_missing_game_fails_not_found() {
    let r = make_move(None, &s("alice"), 0);
    assert!(matches!(r, Err(GameError::NotFound)));
}

#[test]
fn move_before_join_fails_invalid_state() {
    let created = create_game(&None, s("alice"), s("sess-a"), s("g1"), 1).unwrap();
    let r = make_move(Some(created), &s("alice"), 0);
    assert!(matches!(r, Err(GameError::InvalidState)));
}

#[test]
fn move_by_stranger_fails_unknown_player() {
    let g = fresh_joined_game();
    let before = g.clone();
    let r = make_move(Some(g), &s("mallory"), 0);
    assert!(matches!(r, Err(GameError::UnknownPlayer)));
    // The transition produced no record, so the stored state stays what the
    // store already holds.
    assert_eq!(before.status, GameStatus::InProgress);
    assert!(before.board.cells.iter().all(|c| c.is_none()));
}

#[test]
fn move_out_of_turn_fails_not_your_turn() {
    let g = fresh_joined_game();
    let r = make_move(Some(g), &s("bob"), 0);
    assert!(matches!(r, Err(GameError::NotYourTurn)));
}

#[test]
fn move_to_bad_position_propagates_engine_errors() {
    let g = fresh_joined_game();
    let r = make_move(Some(g), &s("alice"), 9);
    assert!(matches!(r, Err(GameError::InvalidPosition)));
    let g = fresh_joined_game();
    let g = make_move(Some(g), &s("alice"), 4).unwrap();
    let r = make_move(Some(g), &s("bob"), 4);
    assert!(matches!(r, Err(GameError::PositionOccupied)));
}

#[test]
fn turn_alternates_to_the_other_player_after_each_move() {
    let g = fresh_joined_game();
    let g = make_move(Some(g), &s("alice"), 0).unwrap();
    assert_eq!(g.board.cells[0], Some(Player::X));
    assert_eq!(g.current_turn, Some(s("bob")));
    assert_eq!(g.status, GameStatus::InProgress);
    let g = make_move(Some(g), &s("bob"), 4).unwrap();
    assert_eq!(g.board.cells[4], Some(Player::O));
    assert_eq!(g.current_turn, Some(s("alice")));
    assert_eq!(g.status, GameStatus::InProgress);
}

#[test]
fn completing_a_line_finishes_the_game_with_that_winner() {
    let g = fresh_joined_game();
    let g = make_move(Some(g), &s("alice"), 0).unwrap();
    let g = make_move(Some(g), &s("bob"), 3).unwrap();
    let g = make_move(Some(g), &s("alice"), 1).unwrap();
    let g = make_move(Some(g), &s("bob"), 4).unwrap();
    let g = make_move(Some(g), &s("alice"), 2).unwrap();
    assert_eq!(g.status, GameStatus::Finished);
    assert_eq!(g.winner, Some(s("alice")));
    let r = make_move(Some(g), &s("bob"), 5);
    assert!(matches!(r, Err(GameError::InvalidState)));
}

#[test]
fn full_board_without_winner_is_a_draw() {
    // Fill to X O X / X O O / O X X, which has no line.
    let g = fresh_joined_game();
    let g = make_move(Some(g), &s("alice"), 0).unwrap();
    let g = make_move(Some(g), &s("bob"), 1).unwrap();
    let g = make_move(Some(g), &s("alice"), 2).unwrap();
    let g = make_move(Some(g), &s("bob"), 4).unwrap();
    let g = make_move(Some(g), &s("alice"), 3).unwrap();
    let g = make_move(Some(g), &s("bob"), 5).unwrap();
    let g = make_move(Some(g), &s("alice"), 7).unwrap();
    let g = make_move(Some(g), &s("bob"), 6).unwrap();
    let g = make_move(Some(g), &s("alice"), 8).unwrap();
    assert_eq!(g.status, GameStatus::Finished);
    assert_eq!(g.winner, None);
}

#[test]
fn player_symbols_and_turn_queries() {
    let g = fresh_joined_game();
    assert_eq!(g.get_player_symbol(&s("alice")), Some(Player::X));
    assert_eq!(g.get_player_symbol(&s("bob")), Some(Player::O));
    assert_eq!(g.get_player_symbol(&s("mallory")), None);
    assert!(g.is_player_turn(&s("alice")));
    assert!(!g.is_player_turn(&s("bob")));
}

#[test]
fn store_keys_and_retention_follow_the_naming_scheme() {
    assert_eq!(store_key(&s("abc")), "game:abc");
    assert_eq!(RETENTION_SECONDS, 3600);
}

#[test]
fn new_game_state_has_the_creator_to_move() {
    let g = GameState::new(s("g9"), s("alice"), s("sess-a"));
    assert_eq!(g.status, GameStatus::Waiting);
    assert_eq!(g.current_turn, Some(s("alice")));
    assert_eq!(g.player2_id, None);
}
