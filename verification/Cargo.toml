[package]
name = "chat_rooms"
version = "0.1.0"
edition = "2021"
publish = false

[dependencies]
actix = "0.10"
actix-web = "3"
actix-web-actors = "3"
derive_more = "0.99"
rand = "0.8"
serde = { version = "1", features = ["derive"] }
serde_json = "1"
uuid = { version = "0.8", features = ["v4"] }
