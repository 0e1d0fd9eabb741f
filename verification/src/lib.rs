//! Chat rooms: the verified core of a WebSocket chat-room backend.
pub mod models;
pub mod actors;
pub mod commands;
pub mod laws;
pub mod messages;
