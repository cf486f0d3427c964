use chat_core::registry::RoomRegistry;
use chat_core::session::chat_ws;
use chat_core::session::ChatSession;
use chat_core::session::Frame;
use chat_core::session::Reaction;
use chat_core::session::SessionState;
use chat_core::wire::Inbound;

const CHAT: u128 = 0x67e5504410b1426f9247bb680e5fe0c8;
const OTHER_CHAT: u128 = 0x67e5504410b1426f9247bb680e5fe0c9;
const HI: &str = r#"{"event":"message","data":{"content":"hi"}}"#;

fn active(registry: &mut RoomRegistry, chat: u128, user: u128, id: u64) -> ChatSession {
    let mut s = ChatSession::new(chat, user, id);
    s.started(registry);
    s
}

fn in_order(mut v: Vec<u64>) -> Vec<u64> {
    v.sort();
    v
}

#[test]
fn handshake_accepts_two_identifiers() {
    let s = chat_ws(
        "67e55044-10b1-426f-9247-bb680e5fe0c8",
        "00000000-0000-0000-0000-000000000005",
        9,
    )
    .unwrap();
    assert_eq!(s.chat_uid, CHAT);
    assert_eq!(s.user_uid, 5);
    assert_eq!(s.session_id, 9);
    assert!(matches!(s.state, SessionState::Connecting));
}

#[test]
fn handshake_rejects_a_bad_chat_first() {
    let e = chat_ws("nope", "also nope", 1).unwrap_err();
    assert_eq!(e.message, "Invalid chat UUID");
    assert_eq!(e.status_code, 400);
}

#[test]
fn handshake_rejects_a_bad_user() {
    let e = chat_ws("67e55044-10b1-426f-9247-bb680e5fe0c8", "5", 1).unwrap_err();
    assert_eq!(e.message, "Invalid user UUID");
    assert_eq!(e.status_code, 400);
}

#[test]
fn started_registers_and_activates() {
    let mut registry = RoomRegistry::new();
    let mut s = ChatSession::new(CHAT, 1, 7);
    assert!(matches!(s.state, SessionState::Connecting));
    s.started(&mut registry);
    assert!(matches!(s.state, SessionState::Active));
    assert_eq!(registry.snapshot(CHAT), vec![7]);
}

#[test]
fn started_does_nothing_to_a_session_that_is_not_connecting() {
    let mut registry = RoomRegistry::new();
    let mut s = active(&mut registry, CHAT, 1, 7);
    s.stopping(&mut registry);
    s.started(&mut registry);
    assert!(matches!(s.state, SessionState::Closed));
    assert!(!registry.has_room(CHAT));
}

#[test]
fn stopping_deregisters_and_closes() {
    let mut registry = RoomRegistry::new();
    let mut a = active(&mut registry, CHAT, 1, 7);
    let _b = active(&mut registry, CHAT, 2, 8);
    a.stopping(&mut registry);
    assert!(matches!(a.state, SessionState::Closed));
    assert_eq!(registry.snapshot(CHAT), vec![8]);
}

#[test]
fn message_goes_to_every_peer_but_not_to_the_author() {
    let mut registry = RoomRegistry::new();
    let mut a = active(&mut registry, CHAT, 1, 7);
    let _b = active(&mut registry, CHAT, 2, 8);
    let _c = active(&mut registry, CHAT, 3, 9);
    let _d = active(&mut registry, OTHER_CHAT, 4, 10);
    match a.handle(&registry, &Frame::Text(HI.to_string())) {
        Reaction::Publish(p) => {
            assert_eq!(in_order(p.recipients), vec![8, 9]);
            assert_eq!(
                p.frame,
                "{\"data\":{\"chat_uid\":\"67e55044-10b1-426f-9247-bb680e5fe0c8\",\"content\":\"hi\",\"user_uid\":\"00000000-0000-0000-0000-000000000001\"},\"event\":\"message\"}"
            );
            assert_eq!(p.store.chat_uid, CHAT);
            assert_eq!(p.store.user_uid, 1);
            assert_eq!(p.store.content, "hi");
        }
        other => panic!("reaction is {:?}", other),
    }
    assert!(matches!(a.state, SessionState::Active));
}

#[test]
fn message_in_an_otherwise_empty_room_is_still_stored() {
    let mut registry = RoomRegistry::new();
    let mut a = active(&mut registry, CHAT, 1, 7);
    match a.handle(&registry, &Frame::Text(HI.to_string())) {
        Reaction::Publish(p) => {
            assert!(p.recipients.is_empty());
            assert_eq!(p.store.content, "hi");
        }
        other => panic!("reaction is {:?}", other),
    }
}

#[test]
fn malformed_payload_is_dropped_and_the_session_stays() {
    let mut registry = RoomRegistry::new();
    let mut a = active(&mut registry, CHAT, 1, 7);
    assert!(matches!(a.handle(&registry, &Frame::Text("garbage".to_string())), Reaction::Dropped));
    assert!(matches!(a.state, SessionState::Active));
    assert_eq!(registry.snapshot(CHAT), vec![7]);
}

#[test]
fn other_events_ask_for_nothing() {
    let mut registry = RoomRegistry::new();
    let mut a = active(&mut registry, CHAT, 1, 7);
    let typing = r#"{"event":"typing","data":{}}"#.to_string();
    assert!(matches!(a.handle(&registry, &Frame::Text(typing)), Reaction::Nothing));
    assert!(matches!(a.handle(&registry, &Frame::Other), Reaction::Nothing));
    assert!(matches!(a.state, SessionState::Active));
}

#[test]
fn close_frame_starts_the_closing() {
    let mut registry = RoomRegistry::new();
    let mut a = active(&mut registry, CHAT, 1, 7);
    assert!(matches!(a.handle(&registry, &Frame::Close), Reaction::Close));
    assert!(matches!(a.state, SessionState::Closing));
    assert!(matches!(a.handle(&registry, &Frame::Text(HI.to_string())), Reaction::Nothing));
    assert!(a.deliver("x".to_string()).is_none());
    a.stopping(&mut registry);
    assert!(matches!(a.state, SessionState::Closed));
    assert!(!registry.has_room(CHAT));
}

#[test]
fn transport_error_starts_the_closing() {
    let mut registry = RoomRegistry::new();
    let mut a = active(&mut registry, CHAT, 1, 7);
    assert!(matches!(a.handle(&registry, &Frame::Error), Reaction::Close));
    assert!(matches!(a.state, SessionState::Closing));
}

#[test]
fn a_session_that_is_not_active_processes_nothing() {
    let registry = RoomRegistry::new();
    let mut s = ChatSession::new(CHAT, 1, 7);
    assert!(matches!(s.handle(&registry, &Frame::Text(HI.to_string())), Reaction::Nothing));
    assert!(matches!(s.handle(&registry, &Frame::Close), Reaction::Nothing));
    assert!(matches!(s.state, SessionState::Connecting));
    assert!(s.deliver("x".to_string()).is_none());
}

#[test]
fn active_session_delivers_what_peers_publish() {
    let mut registry = RoomRegistry::new();
    let a = active(&mut registry, CHAT, 1, 7);
    assert_eq!(a.deliver("frame".to_string()), Some("frame".to_string()));
}

#[test]
fn respond_follows_the_reading() {
    let mut registry = RoomRegistry::new();
    let a = active(&mut registry, CHAT, 1, 7);
    assert!(matches!(a.respond(&registry, Inbound::Malformed), Reaction::Dropped));
    assert!(matches!(a.respond(&registry, Inbound::Ignored), Reaction::Nothing));
    match a.respond(&registry, Inbound::Message("yo".to_string())) {
        Reaction::Publish(p) => assert_eq!(p.store.content, "yo"),
        other => panic!("reaction is {:?}", other),
    }
}

#[test]
fn save_to_message_names_chat_author_and_content() {
    let s = ChatSession::new(CHAT, 3, 7);
    let m = s.save_to_message("text");
    assert_eq!((m.chat_uid, m.user_uid, m.content.as_str()), (CHAT, 3, "text"));
}
