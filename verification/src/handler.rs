use vstd::prelude::*;

use crate::game_logic::GameError;
use crate::game_manager::{
    create_game, join_game, make_move, opt_view, opt_wf, spec_create, spec_join, spec_move,
};
use crate::game_messages::{parse_client_message, spec_parse_client, WsClientMessage, WsServerMessage};
use crate::game_state::{GameState, GameView};

verus! {

/// The reply sent when a frame does not decode to a known intent. Such a
/// reply goes only to the originating session, never to the game.
pub open spec fn decode_error_text() -> Seq<char> {
    "Invalid message format. Expected Json game message."@
}

/// How an outbound message reflects a transition's outcome: a success is the
/// new authoritative snapshot, fanned out to every session of the game; a
/// failure is its error text, for the originating session only.
pub open spec fn reflects(r: WsServerMessage, t: Result<GameView, GameError>) -> bool {
    match t {
        Ok(v) => match r {
            WsServerMessage::GameState { game } => game@ == v && v.inv(),
            WsServerMessage::Error { .. } => false,
        },
        Err(e) => match r {
            WsServerMessage::GameState { .. } => false,
            WsServerMessage::Error { message } => message@ == e.spec_message(),
        },
    }
}

/// One turn of the inbound loop: decodes the frame, runs the matching
/// store transition against the record the caller read for the game, and
/// says what to send. A `GameState` reply is the record to write back and
/// fan out; an `Error` reply is for the originating session only, and the
/// store is left untouched.
pub fn handle_client_message(
    stored: Option<GameState>,
    game_id: &String,
    session_id: &String,
    user_id: &String,
    raw: &str,
    now: i64,
) -> (r: WsServerMessage)
    requires
        opt_wf(stored),
    ensures
        match spec_parse_client(raw@) {
            None => (r matches WsServerMessage::Error { message } && message@
                == decode_error_text()),
            Some(WsClientMessage::CreateGame) => reflects(
                r,
                spec_create(opt_view(stored), user_id@, session_id@, game_id@, now),
            ),
            Some(WsClientMessage::JoinGame) => reflects(
                r,
                spec_join(opt_view(stored), user_id@, session_id@),
            ),
            Some(WsClientMessage::MakeMove { position }) => reflects(
                r,
                spec_move(opt_view(stored), user_id@, position),
            ),
        },
{
    match parse_client_message(raw) {
        None => WsServerMessage::Error {
            message: String::from_str("Invalid message format. Expected Json game message."),
        },
        Some(WsClientMessage::CreateGame) => {
            match create_game(
                &stored,
                user_id.clone(),
                session_id.clone(),
                game_id.clone(),
                now,
            ) {
                Ok(g) => WsServerMessage::GameState { game: g },
                Err(e) => WsServerMessage::Error { message: String::from_str(e.message()) },
            }
        },
        Some(WsClientMessage::JoinGame) => {
            match join_game(stored, user_id.clone(), session_id.clone()) {
                Ok(g) => WsServerMessage::GameState { game: g },
                Err(e) => WsServerMessage::Error { message: String::from_str(e.message()) },
            }
        },
        Some(WsClientMessage::MakeMove { position }) => {
            match make_move(stored, user_id, position) {
                Ok(g) => WsServerMessage::GameState { game: g },
                Err(e) => WsServerMessage::Error { message: String::from_str(e.message()) },
            }
        },
    }
}

/// Admission control for a connection asking to be upgraded: only a caller
/// that authentication resolved to a stable user identifier goes on to
/// register a session or touch game state; without one the attempt is
/// turned away before anything is created.
pub fn accept_connection(auth_user_id: Option<String>) -> (r: Result<String, String>)
    ensures
        match auth_user_id {
            None => (r matches Err(m) && m@ == "Missing or invalid credentials"@),
            Some(u) => (r matches Ok(ru) && ru@ == u@),
        },
{
    match auth_user_id {
        Some(u) => Ok(u),
        None => Err(String::from_str("Missing or invalid credentials")),
    }
}

} // verus!
