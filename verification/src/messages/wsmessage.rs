//! The messages that a session sends to its client, with an `Info` kind for
//! plain notices. The data is a JSON string value, held here as its text.
use vstd::prelude::*;

verus! {

/// The kind of a message to a client.
#[derive(Debug, PartialEq, Eq)]
pub enum MessageType {
    Join,
    Create,
    Leave,
    Msg,
    /// An error report (`"Err"` on the wire).
    Error,
    Info,
}

/// A message to a client: `{"ty": .., "data": ".."}`.
#[derive(Debug, PartialEq, Eq)]
pub struct WsMessage {
    pub ty: MessageType,
    pub data: String,
}

impl WsMessage {
    /// An error report carrying `msg`.
    pub fn err(msg: String) -> (m: Self)
        ensures
            m.ty == MessageType::Error,
            m.data == msg,
    {
        WsMessage { ty: MessageType::Error, data: msg }
    }

    /// A notice carrying `msg`.
    pub fn info(msg: String) -> (m: Self)
        ensures
            m.ty == MessageType::Info,
            m.data == msg,
    {
        WsMessage { ty: MessageType::Info, data: msg }
    }
}

} // verus!
