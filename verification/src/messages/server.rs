//! The requests that a session sends to the chat server.
use vstd::prelude::*;
use crate::models::{RoomId, SessionId};

verus! {

/// Text written by `session`, to be relayed to the others in `room`.
#[derive(Debug, PartialEq, Eq)]
pub struct ClientMessage {
    pub session: SessionId,
    pub room: RoomId,
    pub msg: String,
}

/// `session` opens a new room and moves into it.
#[derive(Debug, PartialEq, Eq)]
pub struct CreateRoom {
    pub session: SessionId,
}

/// `session` moves into the existing room `room`.
#[derive(Debug, PartialEq, Eq)]
pub struct JoinRoom {
    pub session: SessionId,
    pub room: RoomId,
}

/// A session announces itself, with the handle through which it is reached.
pub struct Connect<R> {
    pub id: SessionId,
    pub addr: R,
}

/// `session` is gone.
#[derive(Debug, PartialEq, Eq)]
pub struct Disconnect {
    pub session: SessionId,
}

/// `session` leaves its room.
#[derive(Debug, PartialEq, Eq)]
pub struct Leave {
    pub session: SessionId,
}

} // verus!
