//! The types that client and server exchange, their models, and the
//! encodings of them.
//!
//! Every type is written the way postcard writes the serde form of it: an enum
//! as the `u32` varint of its variant index, then the variant's payload; a
//! struct as its fields in declaration order. This module states those
//! encodings and what reading them gives, and writes and reads the plain
//! enums; the structs and messages are written and read in `codec`.

use vstd::prelude::*;
use crate::wire::{
    bytes_field, lemma_u32_roundtrip, read_u32, str_field, take_bytes_field, take_str_field,
    take_tag, take_u64, taken, varint, write_u32, write_u64,
};

verus! {

/// What a logged-in user is allowed to do.
#[derive(Clone, Copy, Debug, PartialEq, Eq, Structural)]
pub enum UserCapabilities {
    Admin,
    Driver,
    Monitor,
}

/// The state a vehicle reports.
#[derive(Clone, Copy, Debug, PartialEq, Eq, Structural)]
pub enum Status {
    Carga,
    Descarga,
    TransitoCarga,
    TransitoDescarga,
    Parada,
    TransitoPararador,
    Falla,
    Emergencia,
    FueraDeServicio,
}

/// The reasons the server gives for refusing a request.
#[derive(Clone, Copy, Debug, PartialEq, Eq, Structural)]
pub enum ServerError {
    BadLogin,
    BadMessageType,
    NoUser,
    BadPass,
    FirstLogin,
}

impl View for UserCapabilities {
    type V = UserCapabilities;

    open spec fn view(&self) -> UserCapabilities {
        *self
    }
}

impl View for Status {
    type V = Status;

    open spec fn view(&self) -> Status {
        *self
    }
}

impl View for ServerError {
    type V = ServerError;

    open spec fn view(&self) -> ServerError {
        *self
    }
}

/// The variant index of a capability.
pub open spec fn capabilities_index(c: UserCapabilities) -> u32 {
    match c {
        UserCapabilities::Admin => 0,
        UserCapabilities::Driver => 1,
        UserCapabilities::Monitor => 2,
    }
}

/// The capability with a given variant index (below 3).
pub open spec fn capabilities_at(t: u32) -> UserCapabilities {
    if t == 0 {
        UserCapabilities::Admin
    } else if t == 1 {
        UserCapabilities::Driver
    } else {
        UserCapabilities::Monitor
    }
}

/// The encoding of a capability.
pub open spec fn capabilities_bytes(c: UserCapabilities) -> Seq<u8> {
    varint(capabilities_index(c) as nat)
}

/// A capability read from the front of `s`.
pub open spec fn parse_capabilities(s: Seq<u8>) -> Option<(UserCapabilities, Seq<u8>)> {
    match take_tag(s, 3) {
        None => None,
        Some((t, rest)) => Some((capabilities_at(t), rest)),
    }
}

/// The variant index of a status.
pub open spec fn status_index(st: Status) -> u32 {
    match st {
        Status::Carga => 0,
        Status::Descarga => 1,
        Status::TransitoCarga => 2,
        Status::TransitoDescarga => 3,
        Status::Parada => 4,
        Status::TransitoPararador => 5,
        Status::Falla => 6,
        Status::Emergencia => 7,
        Status::FueraDeServicio => 8,
    }
}

/// The status with a given variant index (below 9).
pub open spec fn status_at(t: u32) -> Status {
    if t == 0 {
        Status::Carga
    } else if t == 1 {
        Status::Descarga
    } else if t == 2 {
        Status::TransitoCarga
    } else if t == 3 {
        Status::TransitoDescarga
    } else if t == 4 {
        Status::Parada
    } else if t == 5 {
        Status::TransitoPararador
    } else if t == 6 {
        Status::Falla
    } else if t == 7 {
        Status::Emergencia
    } else {
        Status::FueraDeServicio
    }
}

/// The encoding of a status.
pub open spec fn status_bytes(st: Status) -> Seq<u8> {
    varint(status_index(st) as nat)
}

/// A status read from the front of `s`.
pub open spec fn parse_status(s: Seq<u8>) -> Option<(Status, Seq<u8>)> {
    match take_tag(s, 9) {
        None => None,
        Some((t, rest)) => Some((status_at(t), rest)),
    }
}

/// The variant index of a server error.
pub open spec fn server_error_index(e: ServerError) -> u32 {
    match e {
        ServerError::BadLogin => 0,
        ServerError::BadMessageType => 1,
        ServerError::NoUser => 2,
        ServerError::BadPass => 3,
        ServerError::FirstLogin => 4,
    }
}

/// The server error with a given variant index (below 5).
pub open spec fn server_error_at(t: u32) -> ServerError {
    if t == 0 {
        ServerError::BadLogin
    } else if t == 1 {
        ServerError::BadMessageType
    } else if t == 2 {
        ServerError::NoUser
    } else if t == 3 {
        ServerError::BadPass
    } else {
        ServerError::FirstLogin
    }
}

/// The encoding of a server error.
pub open spec fn server_error_bytes(e: ServerError) -> Seq<u8> {
    varint(server_error_index(e) as nat)
}

/// A server error read from the front of `s`.
pub open spec fn parse_server_error(s: Seq<u8>) -> Option<(ServerError, Seq<u8>)> {
    match take_tag(s, 5) {
        None => None,
        Some((t, rest)) => Some((server_error_at(t), rest)),
    }
}

/// Encodes a capability.
pub fn encode_capabilities(c: UserCapabilities) -> (out: Vec<u8>)
    ensures
        out@ == capabilities_bytes(c),
{
    let t: u32 = match c {
        UserCapabilities::Admin => 0,
        UserCapabilities::Driver => 1,
        UserCapabilities::Monitor => 2,
    };
    write_u32(t)
}

/// Reads a capability from the front of `bytes`, returning the bytes after it.
pub fn read_capabilities(bytes: &[u8]) -> (r: Option<(UserCapabilities, &[u8])>)
    ensures
        taken(r) == parse_capabilities(bytes@),
{
    match read_u32(bytes) {
        None => None,
        Some((t, rest)) => {
            if t == 0 {
                Some((UserCapabilities::Admin, rest))
            } else if t == 1 {
                Some((UserCapabilities::Driver, rest))
            } else if t == 2 {
                Some((UserCapabilities::Monitor, rest))
            } else {
                None
            }
        },
    }
}

/// Encodes a status.
pub fn encode_status(st: Status) -> (out: Vec<u8>)
    ensures
        out@ == status_bytes(st),
{
    let t: u32 = match st {
        Status::Carga => 0,
        Status::Descarga => 1,
        Status::TransitoCarga => 2,
        Status::TransitoDescarga => 3,
        Status::Parada => 4,
        Status::TransitoPararador => 5,
        Status::Falla => 6,
        Status::Emergencia => 7,
        Status::FueraDeServicio => 8,
    };
    write_u32(t)
}

/// Reads a status from the front of `bytes`, returning the bytes after it.
pub fn read_status(bytes: &[u8]) -> (r: Option<(Status, &[u8])>)
    ensures
        taken(r) == parse_status(bytes@),
{
    match read_u32(bytes) {
        None => None,
        Some((t, rest)) => {
            let st = if t == 0 {
                Status::Carga
            } else if t == 1 {
                Status::Descarga
            } else if t == 2 {
                Status::TransitoCarga
            } else if t == 3 {
                Status::TransitoDescarga
            } else if t == 4 {
                Status::Parada
            } else if t == 5 {
                Status::TransitoPararador
            } else if t == 6 {
                Status::Falla
            } else if t == 7 {
                Status::Emergencia
            } else if t == 8 {
                Status::FueraDeServicio
            } else {
                return None;
            };
            Some((st, rest))
        },
    }
}

/// Encodes a server error.
pub fn encode_server_error(e: ServerError) -> (out: Vec<u8>)
    ensures
        out@ == server_error_bytes(e),
{
    let t: u32 = match e {
        ServerError::BadLogin => 0,
        ServerError::BadMessageType => 1,
        ServerError::NoUser => 2,
        ServerError::BadPass => 3,
        ServerError::FirstLogin => 4,
    };
    write_u32(t)
}

/// Reads a server error from the front of `bytes`, returning the bytes after it.
pub fn read_server_error(bytes: &[u8]) -> (r: Option<(ServerError, &[u8])>)
    ensures
        taken(r) == parse_server_error(bytes@),
{
    match read_u32(bytes) {
        None => None,
        Some((t, rest)) => {
            let e = if t == 0 {
                ServerError::BadLogin
            } else if t == 1 {
                ServerError::BadMessageType
            } else if t == 2 {
                ServerError::NoUser
            } else if t == 3 {
                ServerError::BadPass
            } else if t == 4 {
                ServerError::FirstLogin
            } else {
                return None;
            };
            Some((e, rest))
        },
    }
}

/// A capability reads back from its encoding.
pub proof fn lemma_capabilities_roundtrip(c: UserCapabilities, rest: Seq<u8>)
    ensures
        parse_capabilities(capabilities_bytes(c) + rest) == Some((c, rest)),
{
    lemma_u32_roundtrip(capabilities_index(c), rest);
}

/// A status reads back from its encoding.
pub proof fn lemma_status_roundtrip(st: Status, rest: Seq<u8>)
    ensures
        parse_status(status_bytes(st) + rest) == Some((st, rest)),
{
    lemma_u32_roundtrip(status_index(st), rest);
}

/// A server error reads back from its encoding.
pub proof fn lemma_server_error_roundtrip(e: ServerError, rest: Seq<u8>)
    ensures
        parse_server_error(server_error_bytes(e) + rest) == Some((e, rest)),
{
    lemma_u32_roundtrip(server_error_index(e), rest);
}

/// A client's request to log in.
#[derive(Clone, Copy, Debug, PartialEq, Eq)]
pub struct LoginRequest {
    user: u64,
    pass: u64,
}

impl View for LoginRequest {
    /// The user id, then the password.
    type V = (u64, u64);

    closed spec fn view(&self) -> (u64, u64) {
        (self.user, self.pass)
    }
}

impl LoginRequest {
    /// A request to log in as `user` with password `pass`.
    pub fn new(user: u64, pass: u64) -> (r: LoginRequest)
        ensures
            r@ == (user, pass),
    {
        LoginRequest { user, pass }
    }

    /// The id of the user who asks to log in.
    pub fn get_user(&self) -> (u: u64)
        ensures
            u == self@.0,
    {
        self.user
    }

    /// The password offered with the request, which the server compares
    /// with the stored one.
    pub fn get_pass(&self) -> (p: u64)
        ensures
            p == self@.1,
    {
        self.pass
    }
}

/// Encodes a login request: the user id, then the offered password.
pub fn encode_login_request(r: &LoginRequest) -> (out: Vec<u8>)
    ensures
        out@ == login_request_bytes(r@),
{
    let mut out = write_u64(r.user);
    let mut pass = write_u64(r.pass);
    out.append(&mut pass);
    out
}

/// A user as the server stores it.
#[derive(Clone, Debug, PartialEq)]
pub struct UserInternal {
    pub user: u64,
    pub name: String,
    pub capabilites: UserCapabilities,
    pub pass: u64,
}

/// The model of a stored user: its name as characters.
pub struct UserInternalView {
    pub user: u64,
    pub name: Seq<char>,
    pub capabilites: UserCapabilities,
    pub pass: u64,
}

impl View for UserInternal {
    type V = UserInternalView;

    open spec fn view(&self) -> UserInternalView {
        UserInternalView {
            user: self.user,
            name: self.name@,
            capabilites: self.capabilites,
            pass: self.pass,
        }
    }
}

impl UserInternal {
    /// A stored user with the given id, name, capabilities and password.
    pub fn new(user: u64, name: String, capabilites: UserCapabilities, pass: u64) -> (u: Self)
        ensures
            u.user == user,
            u.name@ == name@,
            u.capabilites == capabilites,
            u.pass == pass,
    {
        Self { user, name, capabilites, pass }
    }
}

/// What the server hands a client that logged in.
#[derive(Clone, Debug, PartialEq)]
pub struct UserSession {
    pub user: u64,
    pub token: u64,
    pub role: UserCapabilities,
    pub name: String,
}

/// The model of a session: its user's name as characters.
pub struct UserSessionView {
    pub user: u64,
    pub token: u64,
    pub role: UserCapabilities,
    pub name: Seq<char>,
}

impl View for UserSession {
    type V = UserSessionView;

    open spec fn view(&self) -> UserSessionView {
        UserSessionView { user: self.user, token: self.token, role: self.role, name: self.name@ }
    }
}

impl UserSession {
    /// A session of `user`, identified by `token`, with the given role and name.
    pub fn new(token: u64, user: u64, role: UserCapabilities, name: String) -> (s: Self)
        ensures
            s.user == user,
            s.token == token,
            s.role == role,
            s.name@ == name@,
    {
        UserSession { user, token, role, name }
    }
}

/// A websocket message: the payload of each variant is the postcard
/// encoding of the value it carries.
#[derive(Clone, Debug, PartialEq)]
pub enum Message {
    GetToken,
    Error(Vec<u8>),
    LoginResponse(Vec<u8>),
    Login(Vec<u8>),
    Logout(Vec<u8>),
    NewState(Vec<u8>),
    TokenResponse(Vec<u8>),
}

/// The model of a message: each payload as a byte sequence.
pub enum MessageView {
    GetToken,
    Error(Seq<u8>),
    LoginResponse(Seq<u8>),
    Login(Seq<u8>),
    Logout(Seq<u8>),
    NewState(Seq<u8>),
    TokenResponse(Seq<u8>),
}

impl View for Message {
    type V = MessageView;

    open spec fn view(&self) -> MessageView {
        match self {
            Message::GetToken => MessageView::GetToken,
            Message::Error(b) => MessageView::Error(b@),
            Message::LoginResponse(b) => MessageView::LoginResponse(b@),
            Message::Login(b) => MessageView::Login(b@),
            Message::Logout(b) => MessageView::Logout(b@),
            Message::NewState(b) => MessageView::NewState(b@),
            Message::TokenResponse(b) => MessageView::TokenResponse(b@),
        }
    }
}

/// The variant index of a message.
pub open spec fn message_index(m: MessageView) -> u32 {
    match m {
        MessageView::GetToken => 0,
        MessageView::Error(_) => 1,
        MessageView::LoginResponse(_) => 2,
        MessageView::Login(_) => 3,
        MessageView::Logout(_) => 4,
        MessageView::NewState(_) => 5,
        MessageView::TokenResponse(_) => 6,
    }
}

/// The payload of a message (empty for `GetToken`).
pub open spec fn message_payload(m: MessageView) -> Seq<u8> {
    match m {
        MessageView::GetToken => Seq::empty(),
        MessageView::Error(b) => b,
        MessageView::LoginResponse(b) => b,
        MessageView::Login(b) => b,
        MessageView::Logout(b) => b,
        MessageView::NewState(b) => b,
        MessageView::TokenResponse(b) => b,
    }
}

/// The message with variant index `t` (from 1 to 6) and payload `b`.
pub open spec fn message_at(t: u32, b: Seq<u8>) -> MessageView {
    if t == 1 {
        MessageView::Error(b)
    } else if t == 2 {
        MessageView::LoginResponse(b)
    } else if t == 3 {
        MessageView::Login(b)
    } else if t == 4 {
        MessageView::Logout(b)
    } else if t == 5 {
        MessageView::NewState(b)
    } else {
        MessageView::TokenResponse(b)
    }
}

/// The encoding of a message: its variant index, then its payload as a byte field.
pub open spec fn message_bytes(m: MessageView) -> Seq<u8> {
    match m {
        MessageView::GetToken => varint(0),
        _ => varint(message_index(m) as nat) + bytes_field(message_payload(m)),
    }
}

/// A message read from the front of `s`.
pub open spec fn parse_message(s: Seq<u8>) -> Option<(MessageView, Seq<u8>)> {
    match take_tag(s, 7) {
        None => None,
        Some((t, rest)) => if t == 0 {
            Some((MessageView::GetToken, rest))
        } else {
            match take_bytes_field(rest) {
                None => None,
                Some((b, rest2)) => Some((message_at(t, b), rest2)),
            }
        },
    }
}

/// The encoding of a login request: the user id, then the password.
pub open spec fn login_request_bytes(r: (u64, u64)) -> Seq<u8> {
    varint(r.0 as nat) + varint(r.1 as nat)
}

/// A login request read from the front of `s`.
pub open spec fn parse_login_request(s: Seq<u8>) -> Option<((u64, u64), Seq<u8>)> {
    match take_u64(s) {
        None => None,
        Some((u, rest)) => match take_u64(rest) {
            None => None,
            Some((p, rest2)) => Some(((u, p), rest2)),
        },
    }
}

/// The encoding of a stored user: id, name, capabilities, password.
pub open spec fn user_internal_bytes(u: UserInternalView) -> Seq<u8> {
    varint(u.user as nat) + str_field(u.name) + capabilities_bytes(u.capabilites) + varint(
        u.pass as nat,
    )
}

/// A stored user read from the front of `s`.
pub open spec fn parse_user_internal(s: Seq<u8>) -> Option<(UserInternalView, Seq<u8>)> {
    match take_u64(s) {
        None => None,
        Some((user, r1)) => match take_str_field(r1) {
            None => None,
            Some((name, r2)) => match parse_capabilities(r2) {
                None => None,
                Some((capabilites, r3)) => match take_u64(r3) {
                    None => None,
                    Some((pass, r4)) => Some(
                        (UserInternalView { user, name, capabilites, pass }, r4),
                    ),
                },
            },
        },
    }
}

/// The encoding of a session: user id, token, role, name.
pub open spec fn user_session_bytes(s: UserSessionView) -> Seq<u8> {
    varint(s.user as nat) + varint(s.token as nat) + capabilities_bytes(s.role) + str_field(
        s.name,
    )
}

/// A session read from the front of `s`.
pub open spec fn parse_user_session(s: Seq<u8>) -> Option<(UserSessionView, Seq<u8>)> {
    match take_u64(s) {
        None => None,
        Some((user, r1)) => match take_u64(r1) {
            None => None,
            Some((token, r2)) => match parse_capabilities(r2) {
                None => None,
                Some((role, r3)) => match take_str_field(r3) {
                    None => None,
                    Some((name, r4)) => Some((UserSessionView { user, token, role, name }, r4)),
                },
            },
        },
    }
}

} // verus!
