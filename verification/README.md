# pika_chat

The decision logic of a small chat service, verified with Verus.

- `src/routes/room.rs`: the room endpoints of the HTTP API (list and create
  rooms, list and add members), each written as steps that name the next
  database query or give the reply; laws about authentication, documented
  replies and what the replies report.
- `src/pages/chatroom.rs`, `src/pages/dashboard.rs`: the state of the two
  client pages as state machines from event to next state and effect.
- `src/response.rs`: the error and message bodies.
- `app/`: the HTTP server (actix-web, SQLite through sqlx) that runs the
  queries the library names and sends its replies.
