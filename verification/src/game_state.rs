use vstd::prelude::*;

verus! {

/// The mark a player places on the board; the game's creator plays `X`,
/// the joining player plays `O`.
#[derive(Clone, Copy, Debug, PartialEq, Eq, Structural)]
pub enum Player {
    X,
    O,
}

/// Lifecycle of a game record. Transitions are monotone:
/// `Waiting -> InProgress -> Finished`, with `Abandoned` reachable only
/// from the two non-terminal states.
#[derive(Clone, Copy, Debug, PartialEq, Eq, Structural)]
pub enum GameStatus {
    Waiting,
    InProgress,
    Finished,
    Abandoned,
}

/// A 3x3 grid stored row-major: the cell at `row`, `col` is `cells[3 * row + col]`.
#[derive(Clone, Debug)]
pub struct Board {
    pub cells: Vec<Option<Player>>,
}

impl View for Board {
    type V = Seq<Option<Player>>;

    open spec fn view(&self) -> Seq<Option<Player>> {
        self.cells@
    }
}

impl Board {
    /// A board always has exactly nine cells.
    pub open spec fn wf(&self) -> bool {
        self@.len() == 9
    }

    /// An empty board: nine unoccupied cells.
    pub fn new() -> (b: Board)
        ensures
            b.wf(),
            forall|i: int| 0 <= i < 9 ==> b@[i] is None,
    {
        let mut cells: Vec<Option<Player>> = Vec::new();
        let mut i: usize = 0;
        while i < 9
            invariant
                i <= 9,
                cells@.len() == i,
                forall|j: int| 0 <= j < i ==> cells@[j] is None,
            decreases 9 - i,
        {
            cells.push(None);
            i = i + 1;
        }
        Board { cells }
    }
}

/// Mathematical image of a [`GameState`]: every string field as a sequence
/// of characters, the board as a sequence of cells.
pub ghost struct GameView {
    pub id: Seq<char>,
    pub player1_id: Seq<char>,
    pub player2_id: Option<Seq<char>>,
    pub player1_session: Seq<char>,
    pub player2_session: Option<Seq<char>>,
    pub current_turn: Option<Seq<char>>,
    pub status: GameStatus,
    pub board: Seq<Option<Player>>,
    pub winner: Option<Seq<char>>,
    pub created_at: i64,
}

/// One game's authoritative record, as it is read from and written back to
/// the shared store. The first player creates the game; the second joins it.
#[derive(Clone, Debug)]
pub struct GameState {
    pub id: String,
    pub player1_id: String,
    pub player2_id: Option<String>,
    pub player1_session: String,
    pub player2_session: Option<String>,
    pub current_turn: Option<String>,
    pub status: GameStatus,
    pub board: Board,
    pub winner: Option<String>,
    pub created_at: i64,
}

impl View for GameState {
    type V = GameView;

    open spec fn view(&self) -> GameView {
        GameView {
            id: self.id@,
            player1_id: self.player1_id@,
            player2_id: match self.player2_id {
                Some(p) => Some(p@),
                None => None,
            },
            player1_session: self.player1_session@,
            player2_session: match self.player2_session {
                Some(s) => Some(s@),
                None => None,
            },
            current_turn: match self.current_turn {
                Some(t) => Some(t@),
                None => None,
            },
            status: self.status,
            board: self.board@,
            winner: match self.winner {
                Some(w) => Some(w@),
                None => None,
            },
            created_at: self.created_at,
        }
    }
}

impl GameView {
    /// The well-formedness every reachable game record keeps: a nine-cell
    /// board, and the per-status shape of the player, session, turn and
    /// winner fields.
    pub open spec fn inv(self) -> bool {
        &&& self.board.len() == 9
        &&& self.status == GameStatus::Waiting ==> {
            &&& self.player2_id is None
            &&& self.player2_session is None
            &&& self.current_turn == Some(self.player1_id)
            &&& self.winner is None
        }
        &&& self.status == GameStatus::InProgress ==> {
            &&& self.player2_id is Some
            &&& self.player2_session is Some
            &&& (self.current_turn == Some(self.player1_id)
                || self.current_turn == self.player2_id)
            &&& self.winner is None
        }
        &&& self.winner is Some ==> self.status == GameStatus::Finished
        &&& self.winner is Some ==> (self.winner == Some(self.player1_id)
            || self.winner == self.player2_id)
    }

    /// The mark a user plays with: `X` for the creator, `O` for the joiner,
    /// nothing for a user who is neither registered player.
    pub open spec fn symbol_of(self, user_id: Seq<char>) -> Option<Player> {
        if self.player1_id == user_id {
            Some(Player::X)
        } else if self.player2_id == Some(user_id) {
            Some(Player::O)
        } else {
            None
        }
    }
}

impl GameState {
    pub open spec fn wf(&self) -> bool {
        self@.inv()
    }

    /// A fresh game record: the creator is the first player, holds the turn,
    /// and the game waits for an opponent.
    pub fn new_at(game_id: String, player1_id: String, player1_session: String, created_at: i64) -> (g: GameState)
        ensures
            g@ == (GameView {
                id: game_id@,
                player1_id: player1_id@,
                player2_id: None,
                player1_session: player1_session@,
                player2_session: None,
                current_turn: Some(player1_id@),
                status: GameStatus::Waiting,
                board: Seq::new(9, |i: int| None),
                winner: None,
                created_at: created_at,
            }),
            g.wf(),
    {
        let turn = player1_id.clone();
        let board = Board::new();
        let g = GameState {
            id: game_id,
            player1_id,
            player2_id: None,
            player1_session,
            player2_session: None,
            current_turn: Some(turn),
            status: GameStatus::Waiting,
            board,
            winner: None,
            created_at,
        };
        proof {
            assert(g@.board =~= Seq::new(9, |i: int| None::<Player>));
        }
        g
    }

    /// A fresh game record stamped with the current wall-clock time.
    pub fn new(game_id: String, player1_id: String, player1_session: String) -> (g: GameState)
        ensures
            g@ == (GameView {
                id: game_id@,
                player1_id: player1_id@,
                player2_id: None,
                player1_session: player1_session@,
                player2_session: None,
                current_turn: Some(player1_id@),
                status: GameStatus::Waiting,
                board: Seq::new(9, |i: int| None),
                winner: None,
                created_at: g@.created_at,
            }),
            g.wf(),
    {
        let created_at = now_ts();
        GameState::new_at(game_id, player1_id, player1_session, created_at)
    }

    /// Decides well-formedness at run time, for records that come back from
    /// the shared store and so are not known well formed beforehand.
    pub fn check_wf(&self) -> (r: bool)
        ensures
            r == self.wf(),
    {
        let board_ok = self.board.cells.len() == 9;
        let status_ok = match self.status {
            GameStatus::Waiting => self.player2_id.is_none() && self.player2_session.is_none()
                && (match &self.current_turn {
                Some(t) => *t == self.player1_id,
                None => false,
            }) && self.winner.is_none(),
            GameStatus::InProgress => self.player2_id.is_some() && self.player2_session.is_some()
                && (match &self.current_turn {
                Some(t) => *t == self.player1_id || (match &self.player2_id {
                    Some(p2) => *t == *p2,
                    None => false,
                }),
                None => false,
            }) && self.winner.is_none(),
            GameStatus::Finished => true,
            GameStatus::Abandoned => true,
        };
        let winner_ok = match &self.winner {
            Some(w) => (match self.status {
                GameStatus::Finished => true,
                _ => false,
            }) && (*w == self.player1_id || (match &self.player2_id {
                Some(p2) => *w == *p2,
                None => false,
            })),
            None => true,
        };
        board_ok && status_ok && winner_ok
    }

    /// The mark the given user plays with, if they are a registered player.
    pub fn get_player_symbol(&self, user_id: &String) -> (r: Option<Player>)
        ensures
            r == self@.symbol_of(user_id@),
    {
        if self.player1_id == *user_id {
            Some(Player::X)
        } else {
            match &self.player2_id {
                Some(p2) => {
                    if *p2 == *user_id {
                        Some(Player::O)
                    } else {
                        None
                    }
                },
                None => None,
            }
        }
    }

    /// Whether the given user holds the turn.
    pub fn is_player_turn(&self, user_id: &String) -> (r: bool)
        ensures
            r == (self@.current_turn == Some(user_id@)),
    {
        match &self.current_turn {
            Some(t) => *t == *user_id,
            None => false,
        }
    }
}

/// Relies on `chrono::Utc::now`: seconds since the Unix epoch. The value
/// depends on the wall clock, so nothing is assumed of it.
#[verifier::external_body]
fn now_ts() -> i64 {
    chrono::Utc::now().timestamp()
}

} // verus!
