# chat_rooms

The verified core of a WebSocket chat-room backend: clients create, join and
leave rooms and send text to the others in their room.

- `src/actors/chat_server.rs` — the server state (connected sessions, rooms and
  their members) and what each request does to it and whom it tells.
- `src/actors/chat_session.rs` — one client's session: from each WebSocket
  frame, server answer or heartbeat to the effects to carry out.
- `src/models/` — room and session ids (UUIDs), slash commands, the JSON
  message types, nicknames.
- `src/laws.rs` — properties that span several operations.
- `app/` — the actix-web program that runs the actors and does the I/O.
