//! The chat server, which keeps the rooms, and the per-connection session logic.
pub mod chat_server;
pub mod chat_session;
