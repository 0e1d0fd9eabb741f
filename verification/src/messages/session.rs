//! A chat line as shown to a client, with the nickname of its author.
use vstd::prelude::*;

verus! {

/// A chat line, signed with a nickname when there is one.
#[derive(Debug, PartialEq, Eq)]
pub struct Message {
    pub nickname: Option<String>,
    pub msg: String,
}

} // verus!
