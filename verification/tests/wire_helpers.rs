use tic_tac::auth::{LoginRequest, RegisterRequest};
use tic_tac::json::{escape_json, match_at, parse_json_string, parse_number, skip_ws, str_eq};
use tic_tac::messages::{WsClientMessage, WsInternalMessage};

#[test]
fn escaping_doubles_quotes_and_backslashes() {
    assert_eq!(escape_json("plain"), "plain");
    assert_eq!(escape_json("a\"b"), "a\\\"b");
    assert_eq!(escape_json("a\\b"), "a\\\\b");
    assert_eq!(escape_json(""), "");
}

#[test]
fn string_literal_parsing_stops_at_the_closing_quote() {
    let (content, next) = parse_json_string("abc\"rest", 0).unwrap();
    assert_eq!(content, "abc");
    assert_eq!(next, 4);
    let (content, next) = parse_json_string("a\\\"b\\\\c\"x", 0).unwrap();
    assert_eq!(content, "a\"b\\c");
    assert_eq!(next, 8);
    assert!(parse_json_string("no closing quote", 0).is_none());
    assert!(parse_json_string("bad \\n escape\"", 0).is_none());
}

#[test]
fn number_parsing_reads_digit_runs() {
    assert_eq!(parse_number("042x", 0), Some((42, 3)));
    assert_eq!(parse_number("7", 0), Some((7, 1)));
    assert_eq!(parse_number("x7", 0), None);
    assert_eq!(parse_number("99999", 0), Some((99999, 5)));
    assert_eq!(parse_number("100000", 0), None);
}

#[test]
fn scanning_helpers_behave() {
    assert_eq!(skip_ws("  \t x", 0), 4);
    assert_eq!(skip_ws("x", 0), 0);
    assert!(match_at("hello world", 6, "world"));
    assert!(!match_at("hello world", 6, "worlds"));
    assert!(str_eq("same", "same"));
    assert!(!str_eq("same", "sam"));
}

#[test]
fn plain_message_shapes_carry_their_fields() {
    let m = WsClientMessage {
        game_id: String::from("g1"),
        user_id: String::from("u1"),
        payload: String::from("p"),
    };
    assert_eq!(m.game_id, "g1");
    let i = WsInternalMessage { payload: String::from("x") };
    assert_eq!(i.payload, "x");
    let r = RegisterRequest { username: String::from("u"), password: String::from("pw") };
    let l = LoginRequest { username: r.username.clone(), password: r.password.clone() };
    assert_eq!(l.username, "u");
    assert_eq!(l.password, "pw");
}
