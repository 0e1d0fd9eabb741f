//! What the sessions ask of the chat server, and what they send to clients.
pub mod server;
pub mod session;
pub mod wsmessage;
