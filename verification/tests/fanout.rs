use tic_tac::connection_registry::ConnectionRegistry;
use tic_tac::pubsub::{channel_for, parse_channel, relay_decision, MessagePayload};
use tic_tac::room::Room;
use tokio::sync::mpsc::{unbounded_channel, UnboundedReceiver};

fn s(v: &str) -> String {
    String::from(v)
}

fn drain(rx: &mut UnboundedReceiver<String>) -> Vec<String> {
    let mut out = Vec::new();
    while let Ok(m) = rx.try_recv() {
        out.push(m);
    }
    out
}

#[test]
fn broadcast_except_skips_only_the_excluded_session() {
    let mut reg = ConnectionRegistry::new();
    let (tx_a, mut rx_a) = unbounded_channel::<String>();
    let (tx_b, mut rx_b) = unbounded_channel::<String>();
    let (tx_c, mut rx_c) = unbounded_channel::<String>();
    let (tx_other, mut rx_other) = unbounded_channel::<String>();
    reg.add(&s("g1"), &s("sa"), tx_a);
    reg.add(&s("g1"), &s("sb"), tx_b);
    reg.add(&s("g1"), &s("sc"), tx_c);
    reg.add(&s("g2"), &s("sx"), tx_other);

    let mut delivered = reg.broadcast_except(&s("g1"), "hello", &s("sb"));
    delivered.sort();
    assert_eq!(delivered, vec![s("sa"), s("sc")]);
    assert_eq!(drain(&mut rx_a), vec![s("hello")]);
    assert_eq!(drain(&mut rx_b), Vec::<String>::new());
    assert_eq!(drain(&mut rx_c), vec![s("hello")]);
    assert_eq!(drain(&mut rx_other), Vec::<String>::new());
}

#[test]
fn re_adding_a_session_replaces_its_handle() {
    let mut reg = ConnectionRegistry::new();
    let (tx_old, mut rx_old) = unbounded_channel::<String>();
    let (tx_new, mut rx_new) = unbounded_channel::<String>();
    reg.add(&s("g1"), &s("sa"), tx_old);
    reg.add(&s("g1"), &s("sa"), tx_new);
    let delivered = reg.broadcast_except(&s("g1"), "m", &s("other"));
    assert_eq!(delivered, vec![s("sa")]);
    assert_eq!(drain(&mut rx_old), Vec::<String>::new());
    assert_eq!(drain(&mut rx_new), vec![s("m")]);
}

#[test]
fn remove_deregisters_a_single_session() {
    let mut reg = ConnectionRegistry::new();
    let (tx_a, mut rx_a) = unbounded_channel::<String>();
    let (tx_b, mut rx_b) = unbounded_channel::<String>();
    reg.add(&s("g1"), &s("sa"), tx_a);
    reg.add(&s("g1"), &s("sb"), tx_b);
    reg.remove(&s("g1"), &s("sa"));
    let delivered = reg.broadcast_except(&s("g1"), "m", &s("none"));
    assert_eq!(delivered, vec![s("sb")]);
    assert_eq!(drain(&mut rx_a), Vec::<String>::new());
    assert_eq!(drain(&mut rx_b), vec![s("m")]);
}

#[test]
fn send_to_reaches_one_registered_session() {
    let mut reg = ConnectionRegistry::new();
    let (tx_a, mut rx_a) = unbounded_channel::<String>();
    reg.add(&s("g1"), &s("sa"), tx_a);
    assert!(reg.send_to(&s("g1"), &s("sa"), "only-you"));
    assert!(!reg.send_to(&s("g1"), &s("sb"), "nobody"));
    assert_eq!(drain(&mut rx_a), vec![s("only-you")]);
}

#[test]
fn envelope_round_trips_including_escapes() {
    let p = MessagePayload {
        sender_id: s("sess-\"quoted\"\\slash"),
        message: s("{\"type\":\"game_state\",\"game\":{}}"),
    };
    let wire = p.encode();
    let back = MessagePayload::decode(&wire).expect("own envelope must decode");
    assert_eq!(back.sender_id, p.sender_id);
    assert_eq!(back.message, p.message);
}

#[test]
fn envelope_has_the_expected_wire_shape() {
    let p = MessagePayload { sender_id: s("sa"), message: s("hi") };
    assert_eq!(p.encode(), "{\"sender_id\":\"sa\",\"message\":\"hi\"}");
}

#[test]
fn malformed_envelope_decodes_to_nothing() {
    assert!(MessagePayload::decode("").is_none());
    assert!(MessagePayload::decode("{\"sender\":\"x\"}").is_none());
    assert!(MessagePayload::decode("{\"sender_id\":\"x\",\"message\":\"y\"").is_none());
    assert!(MessagePayload::decode("{\"sender_id\":\"x\",\"message\":\"y\"}z").is_none());
}

#[test]
fn channel_naming_round_trips() {
    assert_eq!(channel_for(&s("abc")), "game:abc");
    assert_eq!(parse_channel("game:abc"), Some(s("abc")));
    assert_eq!(parse_channel("user:abc"), None);
}

#[test]
fn relay_redelivers_to_local_sessions_except_the_origin() {
    let mut reg = ConnectionRegistry::new();
    let (tx_a, mut rx_a) = unbounded_channel::<String>();
    let (tx_b, mut rx_b) = unbounded_channel::<String>();
    reg.add(&s("g1"), &s("sa"), tx_a);
    reg.add(&s("g1"), &s("sb"), tx_b);

    let payload = MessagePayload { sender_id: s("sa"), message: s("snapshot") }.encode();
    let channel = channel_for(&s("g1"));
    let (gid, envelope) = relay_decision(&channel, &payload).expect("game topic with envelope");
    assert_eq!(gid, "g1");
    let delivered = reg.broadcast_except(&gid, &envelope.message, &envelope.sender_id);
    assert_eq!(delivered, vec![s("sb")]);
    assert_eq!(drain(&mut rx_a), Vec::<String>::new());
    assert_eq!(drain(&mut rx_b), vec![s("snapshot")]);
}

#[test]
fn relay_skips_non_game_topics_and_corrupt_envelopes() {
    assert!(relay_decision("other:g1", "{\"sender_id\":\"a\",\"message\":\"b\"}").is_none());
    assert!(relay_decision("game:g1", "not json").is_none());
}

#[test]
fn room_broadcasts_to_everyone_and_except_excludes() {
    let mut room = Room::new();
    let (tx_a, mut rx_a) = unbounded_channel::<String>();
    let (tx_b, mut rx_b) = unbounded_channel::<String>();
    room.join(s("a"), tx_a);
    room.join(s("b"), tx_b);
    let mut all = room.broadcast("to-all");
    all.sort();
    assert_eq!(all, vec![s("a"), s("b")]);
    assert_eq!(drain(&mut rx_a), vec![s("to-all")]);
    assert_eq!(drain(&mut rx_b), vec![s("to-all")]);

    let only = room.broadcast_except("not-a", &s("a"));
    assert_eq!(only, vec![s("b")]);
    assert_eq!(drain(&mut rx_a), Vec::<String>::new());
    assert_eq!(drain(&mut rx_b), vec![s("not-a")]);

    room.leave(&s("b"));
    let after = room.broadcast("again");
    assert_eq!(after, vec![s("a")]);
}
