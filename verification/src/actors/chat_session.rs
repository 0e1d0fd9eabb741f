//! One client's session: what it does with each thing that happens on its
//! WebSocket, with each answer of the chat server and with each heartbeat.
//! Each handler gives the effects to carry out, in order.
use vstd::prelude::*;
use crate::commands::Command;
use crate::messages::server::{ClientMessage, CreateRoom, Disconnect, JoinRoom, Leave};
use crate::models::ids::{hyphenated, is_random_uuid, new_uuid, parse_uuid, uuid_parse, uuid_text, ParsedUuid};
use crate::models::messages::Message;
use crate::messages::wsmessage;
use crate::models::ws::{MessageType, WsMessage};
use crate::models::{RoomId, SessionId};

verus! {

/// A request to the chat server. `CreateRoom`, `JoinRoom` and `Leave` await
/// the server's answer, which goes back to the session's matching handler;
/// the others expect no answer.
#[derive(Debug, PartialEq, Eq)]
pub enum Request {
    CreateRoom(CreateRoom),
    JoinRoom(JoinRoom),
    ClientMessage(ClientMessage),
    Leave(Leave),
    Disconnect(Disconnect),
}

/// Something a session does.
#[derive(Debug, PartialEq, Eq)]
pub enum Effect {
    /// Send this reply to the client, as JSON text.
    Reply(wsmessage::WsMessage),
    /// Send this line to the client as it is.
    Line(String),
    /// Ask the chat server.
    Ask(Request),
    /// Ping the client.
    Ping,
    /// Answer the client's ping with its payload.
    Pong(Vec<u8>),
    /// The client has shown it is alive: restart the heartbeat clock.
    Alive,
    /// Close the WebSocket, with the reason the client gave.
    Close,
    /// Stop the session.
    Stop,
}

/// A frame received on the WebSocket, its text already read as JSON.
#[derive(Debug, PartialEq, Eq)]
pub enum Frame {
    /// A text frame: the message it holds, or why it could not be read.
    Text(Result<WsMessage, String>),
    Ping(Vec<u8>),
    Pong,
    Close,
    /// Any other frame (binary, continuation, no-op).
    Other,
    /// The WebSocket protocol failed, for this reason.
    Failed(String),
}

/// `e` sends the client a message of type `ty` with the text `text`.
pub open spec fn replies(e: Effect, ty: wsmessage::MessageType, text: Seq<char>) -> bool {
    &&& e matches Effect::Reply(m)
    &&& m.ty == ty
    &&& m.data@ == text
}

/// `es` reports the error `text` to the client and stops the session.
pub open spec fn fails(es: Seq<Effect>, text: Seq<char>) -> bool {
    &&& es.len() == 2
    &&& replies(es[0], wsmessage::MessageType::Error, text)
    &&& es[1] == Effect::Stop
}

/// `es` only reports the error `text` to the client.
pub open spec fn rejects(es: Seq<Effect>, text: Seq<char>) -> bool {
    &&& es.len() == 1
    &&& replies(es[0], wsmessage::MessageType::Error, text)
}

/// `es` only asks the server for `req`.
pub open spec fn asks(es: Seq<Effect>, req: Request) -> bool {
    es.len() == 1 && es[0] == Effect::Ask(req)
}

/// `es` only relays to the server the text `text` written by `session` in `room`.
pub open spec fn relays(es: Seq<Effect>, session: SessionId, room: RoomId, text: Seq<char>) -> bool {
    &&& es.len() == 1
    &&& es[0] matches Effect::Ask(Request::ClientMessage(cm))
    &&& cm.session == session
    &&& cm.room == room
    &&& cm.msg@ == text
}

/// The state of one client's session: its id, and the room it is in.
#[derive(Debug, PartialEq, Eq)]
pub struct WsChatSession {
    pub id: SessionId,
    pub room: Option<RoomId>,
}

impl WsChatSession {
    /// A session with the id `id`, in no room.
    pub fn with_id(id: SessionId) -> (s: Self)
        ensures
            s.id == id,
            s.room is None,
    {
        WsChatSession { id, room: None }
    }

    /// A session with a fresh random id, in no room.
    pub fn new() -> (s: Self)
        ensures
            s.room is None,
            is_random_uuid(s.id),
    {
        WsChatSession::with_id(new_uuid())
    }

    /// What the session does with a message from its client.
    pub fn handle_msg(&self, msg: WsMessage) -> (es: Vec<Effect>)
        ensures
            self.answers(msg, es@),
    {
        let data = match msg.data {
            Some(d) => d,
            None => String::new(),
        };
        match msg.ty {
            MessageType::Create => self.create(),
            MessageType::Join => self.join(data),
            MessageType::Msg => self.msg(data),
            MessageType::Leave => self.leave(),
            MessageType::Error => Vec::new(),
        }
    }

    /// What the session does with the message `msg` from its client: asks the
    /// server to create, join or leave a room, relays a chat line, or reports
    /// an error; an error report from the client is ignored. A message
    /// without text counts as one with the empty text.
    pub open spec fn answers(self, msg: WsMessage, es: Seq<Effect>) -> bool {
        let data = match msg.data {
            Some(d) => d@,
            None => Seq::<char>::empty(),
        };
        match msg.ty {
            MessageType::Create => asks(es, Request::CreateRoom(CreateRoom { session: self.id })),
            MessageType::Join => self.join_effects(data, es),
            MessageType::Msg => self.msg_effects(data, es),
            MessageType::Leave => asks(es, Request::Leave(Leave { session: self.id })),
            MessageType::Error => es.len() == 0,
        }
    }

    /// What joining the room written as `text` does: ask the server to join
    /// the room of that id, or report why `text` is no room id.
    pub open spec fn join_effects(self, text: Seq<char>, es: Seq<Effect>) -> bool {
        match uuid_parse(text) {
            Ok(room) => asks(es, Request::JoinRoom(JoinRoom { session: self.id, room })),
            Err(why) => rejects(es, why),
        }
    }

    /// What writing `text` does: relay it to the session's room, or report
    /// that the session is in no room.
    pub open spec fn msg_effects(self, text: Seq<char>, es: Seq<Effect>) -> bool {
        match self.room {
            Some(room) => relays(es, self.id, room, text),
            None => rejects(es, "You are not in a room yet"@),
        }
    }

    /// The chat line that a command makes: the text, said by this session
    /// in its room.
    pub fn execute(&self, cmd: Command) -> (m: ClientMessage)
        requires
            self.room is Some,
        ensures
            m.session == self.id,
            m.room == self.room->0,
            m.msg@ == (match cmd {
                Command::Msg(text) => text@,
            }),
    {
        match cmd {
            Command::Msg(msg) => ClientMessage { session: self.id, room: self.room.unwrap(), msg },
        }
    }

    /// Asks the server for a new room.
    fn create(&self) -> (es: Vec<Effect>)
        ensures
            asks(es@, Request::CreateRoom(CreateRoom { session: self.id })),
    {
        vec![Effect::Ask(Request::CreateRoom(CreateRoom { session: self.id }))]
    }

    /// Asks the server to join the room whose id is written `room_id`.
    fn join(&self, room_id: String) -> (es: Vec<Effect>)
        ensures
            self.join_effects(room_id@, es@),
    {
        match parse_uuid(room_id.as_str()) {
            Ok(room) => vec![Effect::Ask(Request::JoinRoom(JoinRoom { session: self.id, room }))],
            Err(why) => vec![Effect::Reply(wsmessage::WsMessage::err(why))],
        }
    }

    /// Says `msg` in the session's room.
    fn msg(&self, msg: String) -> (es: Vec<Effect>)
        ensures
            self.msg_effects(msg@, es@),
    {
        match Command::parse(msg.as_str()) {
            Ok(cmd) => {
                if self.room.is_some() {
                    vec![Effect::Ask(Request::ClientMessage(self.execute(cmd)))]
                } else {
                    vec![Effect::Reply(wsmessage::WsMessage::err("You are not in a room yet".to_owned()))]
                }
            },
            Err(err) => vec![Effect::Reply(wsmessage::WsMessage::err(err.to_string()))],
        }
    }

    /// Asks the server to leave the room.
    fn leave(&self) -> (es: Vec<Effect>)
        ensures
            asks(es@, Request::Leave(Leave { session: self.id })),
    {
        vec![Effect::Ask(Request::Leave(Leave { session: self.id }))]
    }

    /// The server's answer to a `CreateRoom`: the new room's id, or why the
    /// server could not be asked. On success the session is in that room
    /// and the client is told its id.
    pub fn room_created(&mut self, res: Result<RoomId, String>) -> (es: Vec<Effect>)
        ensures
            final(self).id == old(self).id,
            match res {
                Ok(room) => {
                    &&& final(self).room == Some(room)
                    &&& es@.len() == 1
                    &&& replies(es@[0], wsmessage::MessageType::Info, hyphenated(room))
                    &&& uuid_parse(hyphenated(room)) == ParsedUuid::Ok(room)
                },
                Err(why) => final(self).room == old(self).room && fails(es@, why@),
            },
    {
        match res {
            Ok(room) => {
                self.room = Some(room);
                vec![Effect::Reply(wsmessage::WsMessage::info(uuid_text(room)))]
            },
            Err(why) => vec![Effect::Reply(wsmessage::WsMessage::err(why)), Effect::Stop],
        }
    }

    /// The server's answer to a `JoinRoom` for `room`: whether the room was
    /// joined, or why the server could not be asked.
    pub fn room_joined(&mut self, room: RoomId, res: Result<Result<(), String>, String>) -> (es: Vec<Effect>)
        ensures
            final(self).id == old(self).id,
            match res {
                Ok(Ok(())) => {
                    &&& final(self).room == Some(room)
                    &&& es@.len() == 1
                    &&& replies(es@[0], wsmessage::MessageType::Info, "Joined"@)
                },
                Ok(Err(why)) => final(self).room == old(self).room && rejects(es@, why@),
                Err(why) => final(self).room == old(self).room && fails(es@, why@),
            },
    {
        match res {
            Ok(Ok(())) => {
                self.room = Some(room);
                vec![Effect::Reply(wsmessage::WsMessage::info("Joined".to_owned()))]
            },
            Ok(Err(why)) => vec![Effect::Reply(wsmessage::WsMessage::err(why))],
            Err(why) => vec![Effect::Reply(wsmessage::WsMessage::err(why)), Effect::Stop],
        }
    }

    /// The server's answer to a `Leave`: done, or why the server could not
    /// be asked.
    pub fn room_left(&mut self, res: Result<(), String>) -> (es: Vec<Effect>)
        ensures
            final(self).id == old(self).id,
            match res {
                Ok(()) => {
                    &&& final(self).room is None
                    &&& es@.len() == 1
                    &&& replies(es@[0], wsmessage::MessageType::Info, "Room leaved"@)
                },
                Err(why) => final(self).room == old(self).room && fails(es@, why@),
            },
    {
        match res {
            Ok(()) => {
                self.room = None;
                vec![Effect::Reply(wsmessage::WsMessage::info("Room leaved".to_owned()))]
            },
            Err(why) => vec![Effect::Reply(wsmessage::WsMessage::err(why)), Effect::Stop],
        }
    }

    /// The server's answer to the session's `Connect`: nothing to do, unless
    /// the server could not be asked.
    pub fn connected(&self, res: Result<SessionId, String>) -> (es: Vec<Effect>)
        ensures
            match res {
                Ok(_) => es@.len() == 0,
                Err(why) => fails(es@, why@),
            },
    {
        match res {
            Ok(_) => Vec::new(),
            Err(why) => vec![Effect::Reply(wsmessage::WsMessage::err(why)), Effect::Stop],
        }
    }

    /// What the server is told when the session stops.
    pub fn stopping(&self) -> (d: Disconnect)
        ensures
            d.session == self.id,
    {
        Disconnect { session: self.id }
    }

    /// What a heartbeat tick does, `elapsed` after the client last showed it
    /// was alive: past `timeout`, tell the server the session is gone and
    /// stop; else ping the client.
    pub open spec fn tick_effects(self, elapsed: int, timeout: int) -> Seq<Effect> {
        if elapsed > timeout {
            seq![Effect::Ask(Request::Disconnect(Disconnect { session: self.id })), Effect::Stop]
        } else {
            seq![Effect::Ping]
        }
    }

    /// A heartbeat tick, `elapsed` after the client last showed it was
    /// alive: past `timeout` the session is given up (the server is told and
    /// the session stops), else the client is pinged.
    pub fn heartbeat(&self, elapsed: u64, timeout: u64) -> (es: Vec<Effect>)
        ensures
            es@ == self.tick_effects(elapsed as int, timeout as int),
    {
        if elapsed > timeout {
            vec![Effect::Ask(Request::Disconnect(Disconnect { session: self.id })), Effect::Stop]
        } else {
            vec![Effect::Ping]
        }
    }

    /// A line from the chat server for this session's client.
    pub fn deliver(&self, msg: Message) -> (es: Vec<Effect>)
        ensures
            es@.len() == 1,
            es@[0] matches Effect::Line(line) && line@ == msg.0@,
    {
        vec![Effect::Line(msg.0)]
    }

    /// What the session does with a frame from its WebSocket.
    pub fn handle_frame(&self, frame: Frame) -> (es: Vec<Effect>)
        ensures
            match frame {
                Frame::Text(Ok(msg)) => self.answers(msg, es@),
                Frame::Text(Err(why)) => rejects(es@, why@),
                Frame::Ping(payload) => es@ == seq![Effect::Alive, Effect::Pong(payload)],
                Frame::Pong => es@ == seq![Effect::Alive],
                Frame::Close => es@ == seq![Effect::Close, Effect::Stop],
                Frame::Other => es@.len() == 0,
                Frame::Failed(why) => fails(es@, why@),
            },
    {
        match frame {
            Frame::Text(Ok(msg)) => self.handle_msg(msg),
            Frame::Text(Err(why)) => vec![Effect::Reply(wsmessage::WsMessage::err(why))],
            Frame::Ping(payload) => vec![Effect::Alive, Effect::Pong(payload)],
            Frame::Pong => vec![Effect::Alive],
            Frame::Close => vec![Effect::Close, Effect::Stop],
            Frame::Other => Vec::new(),
            Frame::Failed(why) => vec![Effect::Reply(wsmessage::WsMessage::err(why)), Effect::Stop],
        }
    }
}

} // verus!
