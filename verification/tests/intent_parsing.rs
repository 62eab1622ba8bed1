use tic_tac::game_messages::{parse_client_message, WsClientMessage};

#[test]
fn parses_the_three_intents() {
    assert_eq!(
        parse_client_message("{\"type\":\"create_game\"}"),
        Some(WsClientMessage::CreateGame)
    );
    assert_eq!(parse_client_message("{\"type\":\"join_game\"}"), Some(WsClientMessage::JoinGame));
    assert_eq!(
        parse_client_message("{\"type\":\"make_move\",\"position\":4}"),
        Some(WsClientMessage::MakeMove { position: 4 })
    );
}

#[test]
fn tolerates_whitespace_between_tokens() {
    assert_eq!(
        parse_client_message("  { \"type\" :\t\"make_move\" ,\n \"position\" : 8 }  "),
        Some(WsClientMessage::MakeMove { position: 8 })
    );
    assert_eq!(parse_client_message(" {\"type\": \"create_game\" } "), Some(WsClientMessage::CreateGame));
}

#[test]
fn unknown_tags_and_malformed_frames_are_decode_errors() {
    assert_eq!(parse_client_message("{\"type\":\"resign\"}"), None);
    assert_eq!(parse_client_message("{\"type\":\"make_move\"}"), None);
    assert_eq!(parse_client_message("{\"type\":\"make_move\",\"position\":}"), None);
    assert_eq!(parse_client_message("{\"type\":\"create_game\""), None);
    assert_eq!(parse_client_message("not json"), None);
    assert_eq!(parse_client_message(""), None);
    assert_eq!(parse_client_message("{\"type\":\"create_game\"} trailing"), None);
}

#[test]
fn position_values_parse_as_written() {
    assert_eq!(
        parse_client_message("{\"type\":\"make_move\",\"position\":0}"),
        Some(WsClientMessage::MakeMove { position: 0 })
    );
    // An out-of-range cell still decodes; the store rejects it later.
    assert_eq!(
        parse_client_message("{\"type\":\"make_move\",\"position\":42}"),
        Some(WsClientMessage::MakeMove { position: 42 })
    );
    // Values from one hundred thousand up are refused by the decoder.
    assert_eq!(parse_client_message("{\"type\":\"make_move\",\"position\":100000}"), None);
}
