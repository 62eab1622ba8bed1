use vstd::prelude::*;

use crate::game_state::{Board, Player};

verus! {

/// Everything a client intent can fail with, across the board engine and
/// the session store's get-validate-apply-put cycle.
#[derive(Clone, Copy, Debug, PartialEq, Eq, Structural)]
pub enum GameError {
    /// The move does not address one of the nine cells.
    InvalidPosition,
    /// The addressed cell already holds a mark.
    PositionOccupied,
    /// The acting user is registered but does not hold the turn.
    NotYourTurn,
    /// The game is not in the status the intent needs.
    InvalidState,
    /// The acting user is neither registered player.
    UnknownPlayer,
    /// No live record exists for the game identifier.
    NotFound,
    /// A live record already exists for the game identifier.
    AlreadyExists,
}

impl GameError {
    /// The reply text for each failure, as it is sent to the originating
    /// session.
    pub open spec fn spec_message(self) -> Seq<char> {
        match self {
            GameError::InvalidPosition => "Invalid position"@,
            GameError::PositionOccupied => "Position already occupied"@,
            GameError::NotYourTurn => "Not your turn"@,
            GameError::InvalidState => "Invalid game state"@,
            GameError::UnknownPlayer => "Invalid player"@,
            GameError::NotFound => "Game not found"@,
            GameError::AlreadyExists => "Game already exists"@,
        }
    }

    /// The reply text for this failure.
    pub fn message(&self) -> (r: &'static str)
        ensures
            r@ == self.spec_message(),
    {
        match self {
            GameError::InvalidPosition => "Invalid position",
            GameError::PositionOccupied => "Position already occupied",
            GameError::NotYourTurn => "Not your turn",
            GameError::InvalidState => "Invalid game state",
            GameError::UnknownPlayer => "Invalid player",
            GameError::NotFound => "Game not found",
            GameError::AlreadyExists => "Game already exists",
        }
    }
}

/// The winner of the line `(a, b, c)`: the mark held by all three cells,
/// if they agree and are occupied.
pub open spec fn line_winner(b: Seq<Option<Player>>, a: int, m: int, c: int) -> Option<Player> {
    if b[a] is Some && b[a] == b[m] && b[m] == b[c] {
        b[a]
    } else {
        None
    }
}

/// The winner found by the fixed scan order: the three rows, then the three
/// columns, then the two diagonals.
pub open spec fn spec_winner(b: Seq<Option<Player>>) -> Option<Player> {
    if line_winner(b, 0, 1, 2) is Some {
        line_winner(b, 0, 1, 2)
    } else if line_winner(b, 3, 4, 5) is Some {
        line_winner(b, 3, 4, 5)
    } else if line_winner(b, 6, 7, 8) is Some {
        line_winner(b, 6, 7, 8)
    } else if line_winner(b, 0, 3, 6) is Some {
        line_winner(b, 0, 3, 6)
    } else if line_winner(b, 1, 4, 7) is Some {
        line_winner(b, 1, 4, 7)
    } else if line_winner(b, 2, 5, 8) is Some {
        line_winner(b, 2, 5, 8)
    } else if line_winner(b, 0, 4, 8) is Some {
        line_winner(b, 0, 4, 8)
    } else if line_winner(b, 2, 4, 6) is Some {
        line_winner(b, 2, 4, 6)
    } else {
        None
    }
}

/// Whether every cell is occupied.
pub open spec fn spec_full(b: Seq<Option<Player>>) -> bool {
    forall|i: int| 0 <= i < 9 ==> b[i] is Some
}

/// Pure move validation and win/draw detection over the 3x3 grid.
pub struct GameEngine;

impl GameEngine {
    /// Places `player`'s mark at `position` if it addresses an empty cell;
    /// an occupied cell is never overwritten, the move is rejected instead.
    pub fn make_move(board: &mut Board, position: usize, player: Player) -> (r: Result<(), GameError>)
        requires
            old(board).wf(),
        ensures
            final(board).wf(),
            position >= 9 ==> r == Err::<(), GameError>(GameError::InvalidPosition)
                && final(board)@ == old(board)@,
            position < 9 && old(board)@[position as int] is Some ==> r == Err::<(), GameError>(
                GameError::PositionOccupied,
            ) && final(board)@ == old(board)@,
            position < 9 && old(board)@[position as int] is None ==> r == Ok::<(), GameError>(())
                && final(board)@ == old(board)@.update(position as int, Some(player)),
    {
        if position >= 9 {
            return Err(GameError::InvalidPosition);
        }
        if board.cells[position].is_some() {
            return Err(GameError::PositionOccupied);
        }
        board.cells.set(position, Some(player));
        Ok(())
    }

    /// Scans the three rows, the three columns and the two diagonals, in that
    /// order, and returns the mark of the first completed line found.
    pub fn check_winner(board: &Board) -> (r: Option<Player>)
        requires
            board.wf(),
        ensures
            r == spec_winner(board@),
    {
        let mut row: usize = 0;
        while row < 3
            invariant
                board.wf(),
                row <= 3,
                row >= 1 ==> line_winner(board@, 0, 1, 2) is None,
                row >= 2 ==> line_winner(board@, 3, 4, 5) is None,
                row >= 3 ==> line_winner(board@, 6, 7, 8) is None,
            decreases 3 - row,
        {
            let a = board.cells[3 * row];
            let m = board.cells[3 * row + 1];
            let c = board.cells[3 * row + 2];
            if a.is_some() && cells_eq(a, m) && cells_eq(m, c) {
                return a;
            }
            row = row + 1;
        }

        let mut col: usize = 0;
        while col < 3
            invariant
                board.wf(),
                col <= 3,
                line_winner(board@, 0, 1, 2) is None,
                line_winner(board@, 3, 4, 5) is None,
                line_winner(board@, 6, 7, 8) is None,
                col >= 1 ==> line_winner(board@, 0, 3, 6) is None,
                col >= 2 ==> line_winner(board@, 1, 4, 7) is None,
                col >= 3 ==> line_winner(board@, 2, 5, 8) is None,
            decreases 3 - col,
        {
            let a = board.cells[col];
            let m = board.cells[col + 3];
            let c = board.cells[col + 6];
            if a.is_some() && cells_eq(a, m) && cells_eq(m, c) {
                return a;
            }
            col = col + 1;
        }

        let a = board.cells[0];
        let m = board.cells[4];
        let c = board.cells[8];
        if a.is_some() && cells_eq(a, m) && cells_eq(m, c) {
            return a;
        }

        let a = board.cells[2];
        let m = board.cells[4];
        let c = board.cells[6];
        if a.is_some() && cells_eq(a, m) && cells_eq(m, c) {
            return a;
        }

        None
    }

    /// Whether every cell of the board is occupied.
    pub fn is_board_full(board: &Board) -> (r: bool)
        requires
            board.wf(),
        ensures
            r == spec_full(board@),
    {
        let mut i: usize = 0;
        while i < 9
            invariant
                board.wf(),
                i <= 9,
                forall|j: int| 0 <= j < i ==> board@[j] is Some,
            decreases 9 - i,
        {
            if board.cells[i].is_none() {
                return false;
            }
            i = i + 1;
        }
        true
    }
}

/// Cell equality, usable where `Option`'s own `==` has no specification.
fn cells_eq(a: Option<Player>, b: Option<Player>) -> (r: bool)
    ensures
        r == (a == b),
{
    match (a, b) {
        (Some(x), Some(y)) => x == y,
        (None, None) => true,
        _ => false,
    }
}

/// A mark once placed is never moved or overwritten: a successful move
/// writes only its own, previously empty cell, so every occupied cell keeps
/// its mark — and `make_move` answers a move into an occupied cell with
/// `PositionOccupied`, leaving the board as it was.
pub proof fn lemma_marks_are_permanent(b: Seq<Option<Player>>, position: usize, player: Player)
    requires
        position < 9,
        b.len() == 9,
        b[position as int] is None,
    ensures
        forall|i: int|
            0 <= i < 9 && b[i] is Some ==> b.update(position as int, Some(player))[i] == b[i],
{
}

/// A board with no completed line has no winner: on a full such board the
/// game is a draw.
pub proof fn lemma_no_line_no_winner(b: Seq<Option<Player>>)
    requires
        line_winner(b, 0, 1, 2) is None,
        line_winner(b, 3, 4, 5) is None,
        line_winner(b, 6, 7, 8) is None,
        line_winner(b, 0, 3, 6) is None,
        line_winner(b, 1, 4, 7) is None,
        line_winner(b, 2, 5, 8) is None,
        line_winner(b, 0, 4, 8) is None,
        line_winner(b, 2, 4, 6) is None,
    ensures
        spec_winner(b) is None,
{
}

} // verus!
