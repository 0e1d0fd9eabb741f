use chat_rooms::actors::chat_session::{Effect, Frame, Request, WsChatSession};
use chat_rooms::commands::Command;
use chat_rooms::messages::server::{ClientMessage, CreateRoom, Disconnect, JoinRoom, Leave};
use chat_rooms::messages::wsmessage;
use chat_rooms::models::messages::Message;
use chat_rooms::models::ws::{MessageType, WsMessage};

const ROOM: u128 = 0x67e5_5044_10b1_426f_9247_bb68_0e5f_e0c8;
const ROOM_TEXT: &str = "67e55044-10b1-426f-9247-bb680e5fe0c8";

fn msg(ty: MessageType, data: Option<&str>) -> WsMessage {
    WsMessage { ty, data: data.map(|d| d.to_string()) }
}

fn error_reply(text: &str) -> Effect {
    Effect::Reply(wsmessage::WsMessage::err(text.to_string()))
}

fn info_reply(text: &str) -> Effect {
    Effect::Reply(wsmessage::WsMessage::info(text.to_string()))
}

#[test]
fn new_session_is_in_no_room() {
    let s = WsChatSession::new();
    assert_eq!(s.room, None);
    assert_eq!((s.id >> 76) & 0xf, 4);
    let s = WsChatSession::with_id(5);
    assert_eq!(s.id, 5);
    assert_eq!(s.room, None);
}

#[test]
fn create_asks_the_server() {
    let s = WsChatSession::with_id(5);
    let es = s.handle_msg(msg(MessageType::Create, Some("")));
    assert_eq!(es, vec![Effect::Ask(Request::CreateRoom(CreateRoom { session: 5 }))]);
}

#[test]
fn leave_asks_the_server() {
    let s = WsChatSession::with_id(5);
    let es = s.handle_msg(msg(MessageType::Leave, None));
    assert_eq!(es, vec![Effect::Ask(Request::Leave(Leave { session: 5 }))]);
}

#[test]
fn error_from_client_is_ignored() {
    let s = WsChatSession::with_id(5);
    assert!(s.handle_msg(msg(MessageType::Error, Some("oops"))).is_empty());
}

#[test]
fn join_with_room_id_asks_the_server() {
    let s = WsChatSession::with_id(5);
    let es = s.handle_msg(msg(MessageType::Join, Some(ROOM_TEXT)));
    assert_eq!(es, vec![Effect::Ask(Request::JoinRoom(JoinRoom { session: 5, room: ROOM }))]);
    let es = s.handle_msg(msg(MessageType::Join, Some("67E55044-10B1-426F-9247-BB680E5FE0C8")));
    assert_eq!(es, vec![Effect::Ask(Request::JoinRoom(JoinRoom { session: 5, room: ROOM }))]);
    let es = s.handle_msg(msg(MessageType::Join, Some("67e5504410b1426f9247bb680e5fe0c8")));
    assert_eq!(es, vec![Effect::Ask(Request::JoinRoom(JoinRoom { session: 5, room: ROOM }))]);
}

#[test]
fn join_with_bad_room_id_reports_the_parse_error() {
    let s = WsChatSession::with_id(5);
    let es = s.handle_msg(msg(MessageType::Join, Some("not-a-room")));
    let expected = uuid::Uuid::parse_str("not-a-room").unwrap_err().to_string();
    assert_eq!(es, vec![error_reply(&expected)]);
    let es = s.handle_msg(msg(MessageType::Join, None));
    let expected = uuid::Uuid::parse_str("").unwrap_err().to_string();
    assert_eq!(es, vec![error_reply(&expected)]);
}

#[test]
fn message_outside_a_room_is_refused() {
    let s = WsChatSession::with_id(5);
    let es = s.handle_msg(msg(MessageType::Msg, Some("Hello, World")));
    assert_eq!(es, vec![error_reply("You are not in a room yet")]);
}

#[test]
fn message_in_a_room_is_relayed() {
    let mut s = WsChatSession::with_id(5);
    s.room = Some(ROOM);
    let es = s.handle_msg(msg(MessageType::Msg, Some("Hello, World")));
    assert_eq!(
        es,
        vec![Effect::Ask(Request::ClientMessage(ClientMessage {
            session: 5,
            room: ROOM,
            msg: "Hello, World".to_string(),
        }))]
    );
    let es = s.handle_msg(msg(MessageType::Msg, None));
    assert_eq!(
        es,
        vec![Effect::Ask(Request::ClientMessage(ClientMessage { session: 5, room: ROOM, msg: String::new() }))]
    );
}

#[test]
fn execute_makes_the_chat_line() {
    let mut s = WsChatSession::with_id(5);
    s.room = Some(9);
    let m = s.execute(Command::Msg("hey".to_string()));
    assert_eq!(m, ClientMessage { session: 5, room: 9, msg: "hey".to_string() });
}

#[test]
fn room_created_enters_room_and_reports_its_id() {
    let mut s = WsChatSession::with_id(5);
    let es = s.room_created(Ok(ROOM));
    assert_eq!(s.room, Some(ROOM));
    assert_eq!(es, vec![info_reply(ROOM_TEXT)]);
}

#[test]
fn created_room_id_joins_the_same_room() {
    let mut creator = WsChatSession::with_id(5);
    let es = creator.room_created(Ok(ROOM));
    let text = match &es[0] {
        Effect::Reply(m) => m.data.clone(),
        _ => panic!("expected a reply"),
    };
    let other = WsChatSession::with_id(6);
    let es = other.handle_msg(msg(MessageType::Join, Some(&text)));
    assert_eq!(es, vec![Effect::Ask(Request::JoinRoom(JoinRoom { session: 6, room: ROOM }))]);
}

#[test]
fn room_created_failure_stops() {
    let mut s = WsChatSession::with_id(5);
    let es = s.room_created(Err("Mailbox has closed".to_string()));
    assert_eq!(s.room, None);
    assert_eq!(es, vec![error_reply("Mailbox has closed"), Effect::Stop]);
}

#[test]
fn room_joined_outcomes() {
    let mut s = WsChatSession::with_id(5);
    let es = s.room_joined(ROOM, Ok(Err("The room doesn't exists".to_string())));
    assert_eq!(s.room, None);
    assert_eq!(es, vec![error_reply("The room doesn't exists")]);
    let es = s.room_joined(ROOM, Ok(Ok(())));
    assert_eq!(s.room, Some(ROOM));
    assert_eq!(es, vec![info_reply("Joined")]);
    let es = s.room_joined(7, Err("Mailbox has closed".to_string()));
    assert_eq!(s.room, Some(ROOM));
    assert_eq!(es, vec![error_reply("Mailbox has closed"), Effect::Stop]);
}

#[test]
fn room_left_outcomes() {
    let mut s = WsChatSession::with_id(5);
    s.room = Some(ROOM);
    let es = s.room_left(Err("Mailbox has closed".to_string()));
    assert_eq!(s.room, Some(ROOM));
    assert_eq!(es, vec![error_reply("Mailbox has closed"), Effect::Stop]);
    let es = s.room_left(Ok(()));
    assert_eq!(s.room, None);
    assert_eq!(es, vec![info_reply("Room leaved")]);
}

#[test]
fn connected_outcomes() {
    let s = WsChatSession::with_id(5);
    assert!(s.connected(Ok(3)).is_empty());
    assert_eq!(s.connected(Err("Mailbox has closed".to_string())), vec![error_reply("Mailbox has closed"), Effect::Stop]);
}

#[test]
fn stopping_disconnects_the_session() {
    let s = WsChatSession::with_id(5);
    assert_eq!(s.stopping(), Disconnect { session: 5 });
}

#[test]
fn heartbeat_pings_until_timeout() {
    let s = WsChatSession::with_id(5);
    assert_eq!(s.heartbeat(10_000, 10_000), vec![Effect::Ping]);
    assert_eq!(s.heartbeat(0, 10_000), vec![Effect::Ping]);
    assert_eq!(
        s.heartbeat(10_001, 10_000),
        vec![Effect::Ask(Request::Disconnect(Disconnect { session: 5 })), Effect::Stop]
    );
}

#[test]
fn delivered_line_goes_to_the_client_as_is() {
    let s = WsChatSession::with_id(5);
    assert_eq!(s.deliver(Message("Someone connected".to_string())), vec![Effect::Line("Someone connected".to_string())]);
}

#[test]
fn frames_are_handled() {
    let s = WsChatSession::with_id(5);
    assert_eq!(s.handle_frame(Frame::Ping(vec![1, 2])), vec![Effect::Alive, Effect::Pong(vec![1, 2])]);
    assert_eq!(s.handle_frame(Frame::Pong), vec![Effect::Alive]);
    assert_eq!(s.handle_frame(Frame::Close), vec![Effect::Close, Effect::Stop]);
    assert!(s.handle_frame(Frame::Other).is_empty());
    assert_eq!(s.handle_frame(Frame::Failed("bad frame".to_string())), vec![error_reply("bad frame"), Effect::Stop]);
    assert_eq!(s.handle_frame(Frame::Text(Err("expected value".to_string()))), vec![error_reply("expected value")]);
    assert_eq!(
        s.handle_frame(Frame::Text(Ok(msg(MessageType::Create, Some(""))))),
        vec![Effect::Ask(Request::CreateRoom(CreateRoom { session: 5 }))]
    );
}

#[test]
fn silent_client_is_dropped_at_the_first_tick_past_the_timeout() {
    // ticks at 3, 8, 13 s after a client last seen alive at 0, timeout 10 s
    let s = WsChatSession::with_id(5);
    assert_eq!(s.heartbeat(3, 10), vec![Effect::Ping]);
    assert_eq!(s.heartbeat(8, 10), vec![Effect::Ping]);
    assert_eq!(
        s.heartbeat(13, 10),
        vec![Effect::Ask(Request::Disconnect(Disconnect { session: 5 })), Effect::Stop]
    );
}
