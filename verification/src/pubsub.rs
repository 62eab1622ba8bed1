use vstd::prelude::*;

use crate::json::{
    escape_json, lemma_escape_unescape, match_at, parse_json_string, spec_escape, spec_match_at,
    spec_unescape,
};

verus! {

/// The fanout envelope as it crosses the bus: which session originated the
/// message, and the message itself. Used only in transit, never persisted.
pub struct MessagePayload {
    pub sender_id: String,
    pub message: String,
}

/// The envelope on the wire: a two-field object written by
/// `MessagePayload::encode`, with both strings escaped.
pub open spec fn spec_encode_envelope(sender: Seq<char>, msg: Seq<char>) -> Seq<char> {
    "{\"sender_id\":\""@ + spec_escape(sender) + "\",\"message\":\""@ + spec_escape(msg) + "\"}"@
}

/// Reading an envelope back: only the writer's exact shape is accepted.
pub open spec fn spec_decode_envelope(s: Seq<char>) -> Option<(Seq<char>, Seq<char>)> {
    let p1 = "{\"sender_id\":\""@;
    let p2 = "\",\"message\":\""@;
    if !spec_match_at(s, 0, p1) {
        None
    } else {
        match spec_unescape(s.skip(p1.len() as int)) {
            None => None,
            Some((sender, r1)) => {
                if !(r1.len() >= 1 && r1[0] == ',' && spec_match_at(s, s.len() - r1.len(), p2.skip(1))) {
                    None
                } else {
                    match spec_unescape(s.skip(s.len() - r1.len() + p2.len() - 1)) {
                        None => None,
                        Some((msg, r2)) => {
                            if r2 == "}"@ {
                                Some((sender, msg))
                            } else {
                                None
                            }
                        },
                    }
                }
            },
        }
    }
}

impl MessagePayload {
    /// Writes the envelope for the bus.
    pub fn encode(&self) -> (r: String)
        ensures
            r@ == spec_encode_envelope(self.sender_id@, self.message@),
    {
        let mut out = String::from_str("{\"sender_id\":\"");
        let es = escape_json(self.sender_id.as_str());
        out.append(es.as_str());
        out.append("\",\"message\":\"");
        let em = escape_json(self.message.as_str());
        out.append(em.as_str());
        out.append("\"}");
        out
    }

    /// Reads an envelope from the bus, exactly as `spec_decode_envelope`
    /// says; a malformed one decodes to nothing and is skipped by the relay.
    pub fn decode(s: &str) -> (r: Option<MessagePayload>)
        ensures
            match spec_decode_envelope(s@) {
                None => r is None,
                Some((sender, msg)) => r matches Some(p) && p.sender_id@ == sender && p.message@
                    == msg,
            },
    {
        let p1 = "{\"sender_id\":\"";
        let p2 = "\",\"message\":\"";
        let n = s.unicode_len();
        let p1_len = p1.unicode_len();
        if !match_at(s, 0, p1) {
            return None;
        }
        proof {
            assert(p1@.len() <= s@.len());
        }
        let sender = match parse_json_string(s, p1_len) {
            None => {
                return None;
            },
            Some(sj) => sj,
        };
        let (sender_s, j1) = sender;
        proof {
            assert(s@.skip(j1 as int).len() == s@.len() - j1);
        }
        let p2r = p2_rest();
        let p2_len = p2.unicode_len();
        proof {
            reveal_strlit("\",\"message\":\"");
            reveal_strlit(",\"message\":\"");
            assert(p2@.skip(1) =~= p2r@);
            let r1 = s@.skip(j1 as int);
            assert(r1.len() >= 1 ==> r1[0] == s@[j1 as int]);
        }
        if !(j1 < n && s.get_char(j1) == ',' && match_at(s, j1, p2r)) {
            return None;
        }
        proof {
            assert(j1 + p2@.len() - 1 <= s@.len());
        }
        let msg = match parse_json_string(s, j1 + (p2_len - 1)) {
            None => {
                return None;
            },
            Some(mj) => mj,
        };
        let (msg_s, j2) = msg;
        if j2 < n && s.get_char(j2) == '}' && j2 + 1 == n {
            proof {
                let r2 = s@.skip(j2 as int);
                assert(r2 =~= "}"@) by {
                    reveal_strlit("}");
                    assert(r2.len() == 1);
                    assert(r2[0] == s@[j2 as int]);
                }
            }
            Some(MessagePayload { sender_id: sender_s, message: msg_s })
        } else {
            proof {
                let r2 = s@.skip(j2 as int);
                assert(r2 != "}"@) by {
                    reveal_strlit("}");
                    if r2.len() == 1 {
                        assert(r2[0] == s@[j2 as int]);
                    }
                }
            }
            None
        }
    }
}

/// The tail of the second field's separator, after the quote that closed
/// the sender string.
fn p2_rest() -> (r: &'static str)
    ensures
        r@ == ",\"message\":\""@,
{
    ",\"message\":\""
}

/// An envelope read back is the envelope written: the bus never garbles a
/// well-formed fanout message.
pub proof fn lemma_envelope_round_trip(sender: Seq<char>, msg: Seq<char>)
    ensures
        spec_decode_envelope(spec_encode_envelope(sender, msg)) == Some((sender, msg)),
{
    let p1 = "{\"sender_id\":\""@;
    let p2 = "\",\"message\":\""@;
    reveal_strlit("{\"sender_id\":\"");
    reveal_strlit("\",\"message\":\"");
    reveal_strlit("\"}");
    reveal_strlit("}");
    let s = spec_encode_envelope(sender, msg);
    let es = spec_escape(sender);
    let em = spec_escape(msg);
    assert(s =~= p1 + es + p2 + em + "\"}"@);
    assert(s.subrange(0, p1.len() as int) =~= p1);
    assert(spec_match_at(s, 0, p1));
    let tail1 = p2.skip(1) + em + "\"}"@;
    assert(s.skip(p1.len() as int) =~= es + seq!['"'] + tail1);
    lemma_escape_unescape(sender, tail1);
    assert(spec_unescape(s.skip(p1.len() as int)) == Some((sender, tail1)));
    let r1 = tail1;
    assert(r1.len() >= 1 && r1[0] == ',');
    let j1 = s.len() - r1.len();
    assert(s.skip(j1) =~= r1);
    assert(s.subrange(j1, j1 + p2.skip(1).len()) =~= p2.skip(1));
    assert(spec_match_at(s, j1, p2.skip(1)));
    let tail2 = seq!['}'];
    assert(s.skip(j1 + p2.len() - 1) =~= em + seq!['"'] + tail2);
    lemma_escape_unescape(msg, tail2);
    assert(spec_unescape(s.skip(j1 + p2.len() - 1)) == Some((msg, tail2)));
    assert(tail2 =~= "}"@);
}

/// The bus topic carrying one game's fanout.
pub open spec fn spec_channel_for(game_id: Seq<char>) -> Seq<char> {
    "game:"@ + game_id
}

/// Writes the bus topic for a game.
pub fn channel_for(game_id: &String) -> (r: String)
    ensures
        r@ == spec_channel_for(game_id@),
{
    let mut out = String::from_str("game:");
    out.append(game_id.as_str());
    out
}

/// The game a bus topic carries, if it is a game topic.
pub open spec fn spec_parse_channel(channel: Seq<char>) -> Option<Seq<char>> {
    let p = "game:"@;
    if spec_match_at(channel, 0, p) {
        Some(channel.skip(p.len() as int))
    } else {
        None
    }
}

/// Reads the game identifier out of a bus topic.
pub fn parse_channel(channel: &str) -> (r: Option<String>)
    ensures
        match spec_parse_channel(channel@) {
            None => r is None,
            Some(g) => r matches Some(gs) && gs@ == g,
        },
{
    let p = "game:";
    if !match_at(channel, 0, p) {
        return None;
    }
    let n = channel.unicode_len();
    let rest = channel.substring_char(p.unicode_len(), n);
    Some(String::from_str(rest))
}

/// What the relay loop does with one received bus message: a game topic
/// with a well-formed envelope is re-delivered locally, excluding the
/// origin session; anything else is skipped and the loop goes on.
pub fn relay_decision(channel: &str, payload: &str) -> (r: Option<(String, MessagePayload)>)
    ensures
        match spec_parse_channel(channel@) {
            None => r is None,
            Some(g) => match spec_decode_envelope(payload@) {
                None => r is None,
                Some((sender, msg)) => r matches Some((gid, p)) && gid@ == g && p.sender_id@
                    == sender && p.message@ == msg,
            },
        },
{
    let gid = match parse_channel(channel) {
        None => {
            return None;
        },
        Some(g) => g,
    };
    let p = match MessagePayload::decode(payload) {
        None => {
            return None;
        },
        Some(p) => p,
    };
    Some((gid, p))
}

} // verus!
