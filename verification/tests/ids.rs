use chat_rooms::messages::wsmessage::{MessageType, WsMessage};
use chat_rooms::actors::chat_session::{Effect, Request, WsChatSession};
use chat_rooms::models::messages::Message;
use chat_rooms::models::ws;
use chat_rooms::models::UserInfo;

fn reported_room_id(room: u128) -> String {
    let mut s = WsChatSession::with_id(1);
    match s.room_created(Ok(room)).remove(0) {
        Effect::Reply(m) => m.data,
        _ => panic!("expected a reply"),
    }
}

fn joined_room(text: &str) -> Result<u128, String> {
    let s = WsChatSession::with_id(1);
    match s.handle_msg(ws::WsMessage { ty: ws::MessageType::Join, data: Some(text.to_string()) }).remove(0) {
        Effect::Ask(Request::JoinRoom(j)) => Ok(j.room),
        Effect::Reply(m) => Err(m.data),
        _ => panic!("unexpected effect"),
    }
}

#[test]
fn room_ids_are_printed_hyphenated_lowercase() {
    assert_eq!(reported_room_id(0x67e5_5044_10b1_426f_9247_bb68_0e5f_e0c8), "67e55044-10b1-426f-9247-bb680e5fe0c8");
    assert_eq!(reported_room_id(0), "00000000-0000-0000-0000-000000000000");
    assert_eq!(reported_room_id(u128::MAX), "ffffffff-ffff-ffff-ffff-ffffffffffff");
}

#[test]
fn printed_room_ids_read_back() {
    for u in [0u128, 1, 0xabc, u128::MAX, WsChatSession::new().id] {
        assert_eq!(joined_room(&reported_room_id(u)), Ok(u));
    }
}

#[test]
fn room_id_parse_errors_are_reported() {
    assert_eq!(joined_room("xyz"), Err(uuid::Uuid::parse_str("xyz").unwrap_err().to_string()));
    assert!(joined_room("").is_err());
    assert_eq!(joined_room("urn:uuid:67e55044-10b1-426f-9247-bb680e5fe0c8"), Ok(0x67e5_5044_10b1_426f_9247_bb68_0e5f_e0c8));
    assert_eq!(joined_room("{67e55044-10b1-426f-9247-bb680e5fe0c8}").is_err(), uuid::Uuid::parse_str("{67e55044-10b1-426f-9247-bb680e5fe0c8}").is_err());
}

#[test]
fn fresh_ids_are_random_version_4() {
    let a = WsChatSession::new().id;
    let b = WsChatSession::new().id;
    assert_ne!(a, b);
    for u in [a, b] {
        assert_eq!((u >> 76) & 0xf, 4);
        assert_eq!((u >> 62) & 0x3, 2);
    }
}

#[test]
fn default_user_has_random_nickname() {
    let u = UserInfo::default();
    assert_eq!(u.nickname.len(), 20);
    assert!(u.nickname.starts_with("User-"));
    assert!(u.nickname[5..].chars().all(|c| c.is_ascii_alphanumeric()));
    assert_ne!(UserInfo::default().nickname, UserInfo::default().nickname);
}

#[test]
fn user_with_suffix() {
    assert_eq!(UserInfo::with_suffix("abc".to_string()).nickname, "User-abc");
}

#[test]
fn ws_messages() {
    assert_eq!(WsMessage::err("boom".to_string()), WsMessage { ty: MessageType::Error, data: "boom".to_string() });
    assert_eq!(WsMessage::info("Joined".to_string()), WsMessage { ty: MessageType::Info, data: "Joined".to_string() });
    assert_eq!(ws::WsMessage::err("boom".to_string()), ws::WsMessage { ty: ws::MessageType::Error, data: Some("boom".to_string()) });
    assert_eq!(Message("x".to_string()).0, "x");
}
