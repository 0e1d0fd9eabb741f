//! The text that the chat server hands to a session, to be shown to its client.
use vstd::prelude::*;

verus! {

/// A line of chat text addressed to one session.
#[derive(Debug, PartialEq, Eq)]
pub struct Message(pub String);

} // verus!
