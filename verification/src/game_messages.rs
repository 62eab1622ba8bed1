use vstd::prelude::*;

use crate::game_state::GameState;
use crate::json::{
    parse_json_string, parse_number, skip_ws, spec_parse_number, spec_skip_ws, spec_unescape,
    str_eq,
};

verus! {

/// A client intent, decoded from one inbound frame. The frame is a JSON
/// object tagged by its `type` field; a `make_move` carries the cell to
/// play. The acting user is taken from the connection, never from the
/// payload.
#[derive(Clone, Copy, Debug, PartialEq, Eq, Structural)]
pub enum WsClientMessage {
    CreateGame,
    JoinGame,
    MakeMove { position: usize },
}

/// An outbound server message: the authoritative game snapshot fanned out
/// to every session of the game, or an error reply for the originating
/// session only.
#[derive(Clone, Debug)]
pub enum WsServerMessage {
    GameState { game: GameState },
    Error { message: String },
}

/// The intent grammar: an object holding a `type` tag of `create_game`,
/// `join_game` or `make_move`, the last followed by a `position` number.
/// Whitespace is tolerated around tokens; keys come in the order written
/// here; an unknown tag or a malformed frame decodes to nothing.
pub open spec fn spec_parse_client(s: Seq<char>) -> Option<WsClientMessage> {
    let i0 = spec_skip_ws(s, 0);
    if !(i0 < s.len() && s[i0] == '{') {
        None
    } else {
        let i1 = spec_skip_ws(s, i0 + 1);
        if !(i1 < s.len() && s[i1] == '"') {
            None
        } else {
            match spec_unescape(s.skip(i1 + 1)) {
                None => None,
                Some((key, r1)) => {
                    if key != "type"@ {
                        None
                    } else {
                        let j1 = s.len() - r1.len();
                        let i2 = spec_skip_ws(s, j1);
                        if !(i2 < s.len() && s[i2] == ':') {
                            None
                        } else {
                            let i3 = spec_skip_ws(s, i2 + 1);
                            if !(i3 < s.len() && s[i3] == '"') {
                                None
                            } else {
                                match spec_unescape(s.skip(i3 + 1)) {
                                    None => None,
                                    Some((tag, r2)) => spec_parse_tagged(
                                        s,
                                        tag,
                                        s.len() - r2.len(),
                                    ),
                                }
                            }
                        }
                    }
                },
            }
        }
    }
}

/// What follows the decoded `type` tag, starting at `j` just past its
/// closing quote.
pub open spec fn spec_parse_tagged(s: Seq<char>, tag: Seq<char>, j: int) -> Option<
    WsClientMessage,
> {
    if tag == "create_game"@ || tag == "join_game"@ {
        let i4 = spec_skip_ws(s, j);
        if i4 < s.len() && s[i4] == '}' && spec_skip_ws(s, i4 + 1) == s.len() {
            if tag == "create_game"@ {
                Some(WsClientMessage::CreateGame)
            } else {
                Some(WsClientMessage::JoinGame)
            }
        } else {
            None
        }
    } else if tag == "make_move"@ {
        let i4 = spec_skip_ws(s, j);
        if !(i4 < s.len() && s[i4] == ',') {
            None
        } else {
            let i5 = spec_skip_ws(s, i4 + 1);
            if !(i5 < s.len() && s[i5] == '"') {
                None
            } else {
                match spec_unescape(s.skip(i5 + 1)) {
                    None => None,
                    Some((key2, r3)) => {
                        if key2 != "position"@ {
                            None
                        } else {
                            let j3 = s.len() - r3.len();
                            let i6 = spec_skip_ws(s, j3);
                            if !(i6 < s.len() && s[i6] == ':') {
                                None
                            } else {
                                let i7 = spec_skip_ws(s, i6 + 1);
                                match spec_parse_number(s, i7) {
                                    None => None,
                                    Some((v, j4)) => {
                                        let i8 = spec_skip_ws(s, j4);
                                        if i8 < s.len() && s[i8] == '}' && spec_skip_ws(s, i8 + 1)
                                            == s.len() {
                                            Some(WsClientMessage::MakeMove { position: v as usize })
                                        } else {
                                            None
                                        }
                                    },
                                }
                            }
                        }
                    },
                }
            }
        }
    } else {
        None
    }
}

/// Decodes one inbound frame, exactly as `spec_parse_client` reads it.
pub fn parse_client_message(raw: &str) -> (r: Option<WsClientMessage>)
    ensures
        r == spec_parse_client(raw@),
{
    let n = raw.unicode_len();
    let i0 = skip_ws(raw, 0);
    if !(i0 < n && raw.get_char(i0) == '{') {
        return None;
    }
    let i1 = skip_ws(raw, i0 + 1);
    if !(i1 < n && raw.get_char(i1) == '"') {
        return None;
    }
    let key = match parse_json_string(raw, i1 + 1) {
        None => {
            return None;
        },
        Some(kj) => kj,
    };
    let (key_s, j1) = key;
    if !str_eq(key_s.as_str(), "type") {
        return None;
    }
    let i2 = skip_ws(raw, j1);
    if !(i2 < n && raw.get_char(i2) == ':') {
        return None;
    }
    let i3 = skip_ws(raw, i2 + 1);
    if !(i3 < n && raw.get_char(i3) == '"') {
        return None;
    }
    let tag = match parse_json_string(raw, i3 + 1) {
        None => {
            return None;
        },
        Some(tj) => tj,
    };
    let (tag_s, j2) = tag;
    if str_eq(tag_s.as_str(), "create_game") || str_eq(tag_s.as_str(), "join_game") {
        let i4 = skip_ws(raw, j2);
        if i4 < n && raw.get_char(i4) == '}' && skip_ws(raw, i4 + 1) == n {
            if str_eq(tag_s.as_str(), "create_game") {
                Some(WsClientMessage::CreateGame)
            } else {
                Some(WsClientMessage::JoinGame)
            }
        } else {
            None
        }
    } else if str_eq(tag_s.as_str(), "make_move") {
        let i4 = skip_ws(raw, j2);
        if !(i4 < n && raw.get_char(i4) == ',') {
            return None;
        }
        let i5 = skip_ws(raw, i4 + 1);
        if !(i5 < n && raw.get_char(i5) == '"') {
            return None;
        }
        let key2 = match parse_json_string(raw, i5 + 1) {
            None => {
                return None;
            },
            Some(kj) => kj,
        };
        let (key2_s, j3) = key2;
        if !str_eq(key2_s.as_str(), "position") {
            return None;
        }
        let i6 = skip_ws(raw, j3);
        if !(i6 < n && raw.get_char(i6) == ':') {
            return None;
        }
        let i7 = skip_ws(raw, i6 + 1);
        let num = match parse_number(raw, i7) {
            None => {
                return None;
            },
            Some(vj) => vj,
        };
        let (v, j4) = num;
        let i8 = skip_ws(raw, j4);
        if i8 < n && raw.get_char(i8) == '}' && skip_ws(raw, i8 + 1) == n {
            Some(WsClientMessage::MakeMove { position: v })
        } else {
            None
        }
    } else {
        None
    }
}

} // verus!
