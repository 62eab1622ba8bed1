use vstd::prelude::*;

use crate::game_state::{GameState, GameStatus, GameView, Player};
use crate::game_logic::{spec_full, spec_winner, GameEngine, GameError};

verus! {

/// How long a game record is retained by the shared store, in seconds; the
/// window slides, refreshed on every write.
pub const RETENTION_SECONDS: u64 = 3600;

/// The store key holding one game's record.
pub open spec fn spec_store_key(game_id: Seq<char>) -> Seq<char> {
    "game:"@ + game_id
}

/// Writes the store key for a game.
pub fn store_key(game_id: &String) -> (r: String)
    ensures
        r@ == spec_store_key(game_id@),
{
    let mut out = String::from_str("game:");
    out.append(game_id.as_str());
    out
}

/// The stored record a transition starts from, as the shared store handed it
/// out: present or absent.
pub open spec fn opt_view(o: Option<GameState>) -> Option<GameView> {
    match o {
        Some(g) => Some(g@),
        None => None,
    }
}

/// A transition's outcome at the mathematical level.
pub open spec fn res_view(r: Result<GameState, GameError>) -> Result<GameView, GameError> {
    match r {
        Ok(g) => Ok(g@),
        Err(e) => Err(e),
    }
}

/// Every record a transition can read is well formed.
pub open spec fn opt_wf(o: Option<GameState>) -> bool {
    match o {
        Some(g) => g.wf(),
        None => true,
    }
}

/// Creating a game: refused while a live record exists, otherwise a fresh
/// waiting record owned by the creator.
pub open spec fn spec_create(
    existing: Option<GameView>,
    player1_id: Seq<char>,
    player1_session: Seq<char>,
    game_id: Seq<char>,
    now: i64,
) -> Result<GameView, GameError> {
    if existing is Some {
        Err(GameError::AlreadyExists)
    } else {
        Ok(
            GameView {
                id: game_id,
                player1_id: player1_id,
                player2_id: None,
                player1_session: player1_session,
                player2_session: None,
                current_turn: Some(player1_id),
                status: GameStatus::Waiting,
                board: Seq::new(9, |i: int| None),
                winner: None,
                created_at: now,
            },
        )
    }
}

/// Joining a game: only a live, still-waiting record accepts a second
/// player; the join registers the joiner and starts the game.
pub open spec fn spec_join(
    stored: Option<GameView>,
    player2_id: Seq<char>,
    player2_session: Seq<char>,
) -> Result<GameView, GameError> {
    match stored {
        None => Err(GameError::NotFound),
        Some(g) => {
            if g.status != GameStatus::Waiting {
                Err(GameError::InvalidState)
            } else {
                Ok(
                    GameView {
                        player2_id: Some(player2_id),
                        player2_session: Some(player2_session),
                        status: GameStatus::InProgress,
                        ..g
                    },
                )
            }
        },
    }
}

/// Whose turn comes after a non-terminal move by `user_id`: always the
/// other registered player.
pub open spec fn spec_next_turn(g: GameView, user_id: Seq<char>) -> Option<Seq<char>> {
    if g.player1_id == user_id {
        g.player2_id
    } else {
        Some(g.player1_id)
    }
}

/// A move: validated against the record's status, the registered players and
/// the turn, then applied to the board; a completed line finishes the game
/// with the line's owner as winner, a full board without one finishes it as
/// a draw, and otherwise the turn passes to the other player.
pub open spec fn spec_move(
    stored: Option<GameView>,
    user_id: Seq<char>,
    position: usize,
) -> Result<GameView, GameError> {
    match stored {
        None => Err(GameError::NotFound),
        Some(g) => {
            if g.status != GameStatus::InProgress {
                Err(GameError::InvalidState)
            } else if g.symbol_of(user_id) is None {
                Err(GameError::UnknownPlayer)
            } else if g.current_turn != Some(user_id) {
                Err(GameError::NotYourTurn)
            } else if position >= 9 {
                Err(GameError::InvalidPosition)
            } else if g.board[position as int] is Some {
                Err(GameError::PositionOccupied)
            } else {
                let nb = g.board.update(position as int, Some(g.symbol_of(user_id)->Some_0));
                match spec_winner(nb) {
                    Some(Player::X) => Ok(
                        GameView {
                            board: nb,
                            status: GameStatus::Finished,
                            winner: Some(g.player1_id),
                            ..g
                        },
                    ),
                    Some(Player::O) => Ok(
                        GameView {
                            board: nb,
                            status: GameStatus::Finished,
                            winner: g.player2_id,
                            ..g
                        },
                    ),
                    None => {
                        if spec_full(nb) {
                            Ok(GameView { board: nb, status: GameStatus::Finished, winner: None, ..g })
                        } else {
                            Ok(
                                GameView {
                                    board: nb,
                                    current_turn: spec_next_turn(g, user_id),
                                    ..g
                                },
                            )
                        }
                    },
                }
            }
        },
    }
}

/// The get-validate-apply half of the store's `create`: the caller supplies
/// what the store read for `game_id` and the current timestamp, and writes
/// the returned record back on success.
pub fn create_game(
    existing: &Option<GameState>,
    player1_id: String,
    player1_session: String,
    game_id: String,
    now: i64,
) -> (r: Result<GameState, GameError>)
    ensures
        res_view(r) == spec_create(opt_view(*existing), player1_id@, player1_session@, game_id@, now),
        r matches Ok(g) ==> g.wf(),
{
    if existing.is_some() {
        return Err(GameError::AlreadyExists);
    }
    Ok(GameState::new_at(game_id, player1_id, player1_session, now))
}

/// The get-validate-apply half of the store's `join`: the caller supplies
/// what the store read for the game and writes the returned record back on
/// success. Succeeds exactly on a live record still in `Waiting`.
pub fn join_game(
    stored: Option<GameState>,
    player2_id: String,
    player2_session: String,
) -> (r: Result<GameState, GameError>)
    requires
        opt_wf(stored),
    ensures
        res_view(r) == spec_join(opt_view(stored), player2_id@, player2_session@),
        r matches Ok(g) ==> g.wf(),
{
    match stored {
        None => Err(GameError::NotFound),
        Some(mut g) => {
            if g.status != GameStatus::Waiting {
                return Err(GameError::InvalidState);
            }
            g.player2_id = Some(player2_id);
            g.player2_session = Some(player2_session);
            g.status = GameStatus::InProgress;
            Ok(g)
        },
    }
}

/// The get-validate-apply half of the store's `move`: the caller supplies
/// what the store read for the game and writes the returned record back on
/// success. Board errors are the engine's own, unchanged.
pub fn make_move(stored: Option<GameState>, user_id: &String, position: usize) -> (r: Result<
    GameState,
    GameError,
>)
    requires
        opt_wf(stored),
    ensures
        res_view(r) == spec_move(opt_view(stored), user_id@, position),
        r matches Ok(g) ==> g.wf(),
{
    match stored {
        None => Err(GameError::NotFound),
        Some(mut g) => {
            if g.status != GameStatus::InProgress {
                return Err(GameError::InvalidState);
            }
            let symbol = match g.get_player_symbol(user_id) {
                Some(s) => s,
                None => {
                    return Err(GameError::UnknownPlayer);
                },
            };
            if !g.is_player_turn(user_id) {
                return Err(GameError::NotYourTurn);
            }
            match GameEngine::make_move(&mut g.board, position, symbol) {
                Ok(()) => {},
                Err(e) => {
                    return Err(e);
                },
            }
            match GameEngine::check_winner(&g.board) {
                Some(Player::X) => {
                    g.status = GameStatus::Finished;
                    g.winner = Some(g.player1_id.clone());
                },
                Some(Player::O) => {
                    g.status = GameStatus::Finished;
                    g.winner = match &g.player2_id {
                        Some(p2) => Some(p2.clone()),
                        None => None,
                    };
                },
                None => {
                    if GameEngine::is_board_full(&g.board) {
                        g.status = GameStatus::Finished;
                        g.winner = None;
                    } else {
                        let next = if g.player1_id == *user_id {
                            match &g.player2_id {
                                Some(p2) => Some(p2.clone()),
                                None => None,
                            }
                        } else {
                            Some(g.player1_id.clone())
                        };
                        g.current_turn = next;
                    }
                },
            }
            Ok(g)
        },
    }
}

/// Status only moves forward: a join takes a waiting record to running, and
/// a move leaves a running record running or finishes it; no transition
/// steps the status back.
pub proof fn lemma_status_monotone(
    stored: Option<GameView>,
    p2: Seq<char>,
    s2: Seq<char>,
    u: Seq<char>,
    pos: usize,
)
    ensures
        spec_join(stored, p2, s2) matches Ok(g) ==> stored->Some_0.status == GameStatus::Waiting
            && g.status == GameStatus::InProgress,
        spec_move(stored, u, pos) matches Ok(g) ==> stored->Some_0.status
            == GameStatus::InProgress && (g.status == GameStatus::InProgress || g.status
            == GameStatus::Finished),
{
}

/// The board is never rolled back: a successful move writes exactly its own,
/// previously empty cell, and every mark already placed stays where it is.
pub proof fn lemma_board_never_rolled_back(stored: Option<GameView>, u: Seq<char>, pos: usize)
    requires
        stored matches Some(g) ==> g.board.len() == 9,
        spec_move(stored, u, pos) is Ok,
    ensures
        stored matches Some(g) ==> forall|i: int|
            0 <= i < g.board.len() && g.board[i] is Some ==> spec_move(stored, u, pos)->Ok_0.board[i]
                == g.board[i],
{
    match stored {
        Some(g) => {
            let nb = g.board.update(pos as int, Some(g.symbol_of(u)->Some_0));
            assert(spec_move(stored, u, pos)->Ok_0.board == nb);
            assert forall|i: int|
                0 <= i < g.board.len() && g.board[i] is Some implies spec_move(
                stored,
                u,
                pos,
            )->Ok_0.board[i] == g.board[i] by {
                assert(g.board[pos as int] is None);
                assert(i != pos);
                assert(nb[i] == g.board[i]);
            }
        },
        None => {},
    }
}

/// Turn alternation: a successful move that leaves the game running hands
/// the turn to the other registered player, never back to the mover. The
/// two players must be distinct users.
pub proof fn lemma_turn_alternation(stored: Option<GameView>, user_id: Seq<char>, position: usize)
    requires
        stored matches Some(g) && g.inv() && g.player1_id != g.player2_id->Some_0,
        spec_move(stored, user_id, position) matches Ok(ng) && ng.status == GameStatus::InProgress,
    ensures
        spec_move(stored, user_id, position)->Ok_0.current_turn != Some(user_id),
        spec_move(stored, user_id, position)->Ok_0.current_turn == spec_next_turn(
            stored->Some_0,
            user_id,
        ),
{
}

/// A join succeeds exactly once: the first join of a waiting game is
/// accepted, and any further join of the resulting record fails with
/// `InvalidState`.
pub proof fn lemma_join_exactly_once(
    g: GameView,
    p2: Seq<char>,
    s2: Seq<char>,
    p3: Seq<char>,
    s3: Seq<char>,
)
    requires
        g.status == GameStatus::Waiting,
    ensures
        spec_join(Some(g), p2, s2) is Ok,
        spec_join(Some(spec_join(Some(g), p2, s2)->Ok_0), p3, s3) == Err::<GameView, GameError>(
            GameError::InvalidState,
        ),
{
}

/// A move by a user who is neither registered player fails with
/// `UnknownPlayer`; no record is produced, so the stored state stays as it
/// was.
pub proof fn lemma_unknown_player(g: GameView, user_id: Seq<char>, position: usize)
    requires
        g.status == GameStatus::InProgress,
        g.symbol_of(user_id) is None,
    ensures
        spec_move(Some(g), user_id, position) == Err::<GameView, GameError>(GameError::UnknownPlayer),
{
}

} // verus!
