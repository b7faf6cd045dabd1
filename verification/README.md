# transp-common

The shared vocabulary of a small transport-tracking service, verified with
Verus: user, session and message types; their wire encoding (the postcard
format, with postcard doing the reading and writing of each primitive field);
and the login exchange between a client and the session server.

- `src/wire.rs` — varints, byte fields and string fields: what postcard writes
  and accepts, stated over byte sequences, with read-back proofs.
- `src/user.rs` — the types, their models, and the writing of the enums and
  of the login request.
- `src/codec.rs` — encoding and decoding of the other structs and messages, the frames
  sent over the websocket, and the read-back proofs.
- `src/login.rs` — the session database and the login step: one websocket
  event in, the updated sessions and the action to take out.
- `app/main.rs` — the axum websocket server that runs the login step.
