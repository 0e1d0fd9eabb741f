//! What a chat line typed by a client means. Every line is, for now, a
//! message to the room.
use vstd::prelude::*;

verus! {

/// Why a line could not be read as a command.
#[derive(Debug, PartialEq, Eq)]
pub struct CommandError {
    msg: &'static str,
}

impl CommandError {
    /// The reason the error gives.
    pub closed spec fn reason(self) -> Seq<char> {
        self.msg@
    }

    /// The error's text: `Invalid command: ` followed by the reason.
    pub fn to_string(&self) -> (s: String)
        ensures
            s@ == "Invalid command: "@ + self.reason(),
    {
        "Invalid command: ".to_owned().concat(self.msg)
    }
}

/// A command typed by a client.
#[derive(Debug, PartialEq, Eq)]
pub enum Command {
    /// A line to be said in the client's room.
    Msg(String),
}

impl Command {
    /// Reads a line typed by a client: any line is a message to the room.
    pub fn parse(s: &str) -> (r: Result<Command, CommandError>)
        ensures
            r matches Ok(Command::Msg(m)) && m@ == s@,
    {
        Ok(Command::Msg(s.to_owned()))
    }
}

impl core::str::FromStr for Command {
    type Err = CommandError;

    fn from_str(s: &str) -> (r: Result<Command, CommandError>)
        ensures
            r matches Ok(Command::Msg(m)) && m@ == s@,
    {
        Command::parse(s)
    }
}

} // verus!
