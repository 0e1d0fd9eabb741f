//! The JSON messages exchanged with a client over the WebSocket: a type tag
//! and an optional text.
use vstd::prelude::*;

verus! {

/// What a client message asks for, or what a reply reports.
#[derive(Debug, PartialEq, Eq)]
pub enum MessageType {
    Join,
    Create,
    Leave,
    Msg,
    /// An error report (`"Err"` on the wire).
    Error,
}

/// A message of the WebSocket protocol: `{"ty": .., "data": ..}`.
#[derive(Debug, PartialEq, Eq)]
pub struct WsMessage {
    pub ty: MessageType,
    pub data: Option<String>,
}

impl WsMessage {
    /// An error reply carrying `msg`.
    pub fn err(msg: String) -> (m: Self)
        ensures
            m.ty == MessageType::Error,
            m.data == Some(msg),
    {
        WsMessage { ty: MessageType::Error, data: Some(msg) }
    }
}

} // verus!
