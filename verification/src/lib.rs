//! Shared vocabulary of the transport service: the user, session and message
//! types, their postcard wire encoding, and the login exchange between a
//! client and the session server.

pub mod wire;
pub mod user;
pub mod codec;
pub mod login;
pub mod layout;
