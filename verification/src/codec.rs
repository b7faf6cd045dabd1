//! Writing and reading the structured types and messages, the frames that
//! travel over the websocket, and the proofs that each encoding reads back.
//!
//! A frame is always `Message::Variant(encoding of the carried value)`,
//! itself encoded: the carried value is encoded twice over.

use vstd::prelude::*;
use vstd::utf8::encode_utf8;
use crate::user::{
    capabilities_bytes, lemma_capabilities_roundtrip, login_request_bytes, message_at,
    message_bytes, message_index, message_payload, parse_login_request,
    parse_message, parse_user_internal, parse_user_session, read_capabilities,
    encode_capabilities, encode_login_request, encode_server_error, server_error_bytes, user_internal_bytes,
    user_session_bytes, LoginRequest, Message, MessageView, ServerError, UserInternal,
    UserInternalView, UserSession, UserSessionView,
};
use crate::wire::{
    bytes_field, lemma_bytes_roundtrip, lemma_str_roundtrip, lemma_u32_roundtrip,
    lemma_u64_roundtrip, read_bytes, read_string, read_u32, read_u64, str_field, taken,
    value_of, varint, viewed, write_bytes, write_str, write_u32, write_u64,
};

verus! {

/// Reads a login request from the front of `bytes`, returning the bytes after it.
pub fn read_login_request(bytes: &[u8]) -> (r: Option<(LoginRequest, &[u8])>)
    ensures
        taken(r) == parse_login_request(bytes@),
{
    match read_u64(bytes) {
        None => None,
        Some((user, r1)) => match read_u64(r1) {
            None => None,
            Some((pass, r2)) => Some((LoginRequest::new(user, pass), r2)),
        },
    }
}

/// Decodes a login request; bytes after it are ignored.
pub fn decode_login_request(bytes: &[u8]) -> (r: Option<LoginRequest>)
    ensures
        viewed(r) == value_of(parse_login_request(bytes@)),
{
    match read_login_request(bytes) {
        None => None,
        Some((l, _)) => Some(l),
    }
}

/// Encodes a stored user.
pub fn encode_user_internal(u: &UserInternal) -> (out: Vec<u8>)
    ensures
        out@ == user_internal_bytes(u@),
{
    let mut out = write_u64(u.user);
    let mut name = write_str(u.name.as_str());
    let mut caps = encode_capabilities(u.capabilites);
    let mut pass = write_u64(u.pass);
    out.append(&mut name);
    out.append(&mut caps);
    out.append(&mut pass);
    out
}

/// Reads a stored user from the front of `bytes`, returning the bytes after it.
pub fn read_user_internal(bytes: &[u8]) -> (r: Option<(UserInternal, &[u8])>)
    ensures
        taken(r) == parse_user_internal(bytes@),
{
    let (user, r1) = match read_u64(bytes) {
        None => return None,
        Some(x) => x,
    };
    let (name, r2) = match read_string(r1) {
        None => return None,
        Some(x) => x,
    };
    let (capabilites, r3) = match read_capabilities(r2) {
        None => return None,
        Some(x) => x,
    };
    let (pass, r4) = match read_u64(r3) {
        None => return None,
        Some(x) => x,
    };
    Some((UserInternal::new(user, name, capabilites, pass), r4))
}

/// Decodes a stored user; bytes after it are ignored.
pub fn decode_user_internal(bytes: &[u8]) -> (r: Option<UserInternal>)
    ensures
        viewed(r) == value_of(parse_user_internal(bytes@)),
{
    match read_user_internal(bytes) {
        None => None,
        Some((u, _)) => Some(u),
    }
}

/// Encodes a session.
pub fn encode_user_session(s: &UserSession) -> (out: Vec<u8>)
    ensures
        out@ == user_session_bytes(s@),
{
    let mut out = write_u64(s.user);
    let mut token = write_u64(s.token);
    let mut role = encode_capabilities(s.role);
    let mut name = write_str(s.name.as_str());
    out.append(&mut token);
    out.append(&mut role);
    out.append(&mut name);
    out
}

/// Reads a session from the front of `bytes`, returning the bytes after it.
pub fn read_user_session(bytes: &[u8]) -> (r: Option<(UserSession, &[u8])>)
    ensures
        taken(r) == parse_user_session(bytes@),
{
    let (user, r1) = match read_u64(bytes) {
        None => return None,
        Some(x) => x,
    };
    let (token, r2) = match read_u64(r1) {
        None => return None,
        Some(x) => x,
    };
    let (role, r3) = match read_capabilities(r2) {
        None => return None,
        Some(x) => x,
    };
    let (name, r4) = match read_string(r3) {
        None => return None,
        Some(x) => x,
    };
    Some((UserSession::new(token, user, role, name), r4))
}

/// Decodes a session; bytes after it are ignored.
pub fn decode_user_session(bytes: &[u8]) -> (r: Option<UserSession>)
    ensures
        viewed(r) == value_of(parse_user_session(bytes@)),
{
    match read_user_session(bytes) {
        None => None,
        Some((s, _)) => Some(s),
    }
}

/// A variant index followed by a payload field.
fn encode_tagged(t: u32, payload: &[u8]) -> (out: Vec<u8>)
    ensures
        out@ == varint(t as nat) + bytes_field(payload@),
{
    let mut out = write_u32(t);
    let mut field = write_bytes(payload);
    out.append(&mut field);
    out
}

/// Encodes a message.
pub fn encode_message(m: &Message) -> (out: Vec<u8>)
    ensures
        out@ == message_bytes(m@),
{
    match m {
        Message::GetToken => write_u32(0),
        Message::Error(b) => encode_tagged(1, b.as_slice()),
        Message::LoginResponse(b) => encode_tagged(2, b.as_slice()),
        Message::Login(b) => encode_tagged(3, b.as_slice()),
        Message::Logout(b) => encode_tagged(4, b.as_slice()),
        Message::NewState(b) => encode_tagged(5, b.as_slice()),
        Message::TokenResponse(b) => encode_tagged(6, b.as_slice()),
    }
}

/// Reads a message from the front of `bytes`, returning the bytes after it.
pub fn read_message(bytes: &[u8]) -> (r: Option<(Message, &[u8])>)
    ensures
        taken(r) == parse_message(bytes@),
{
    let (t, rest) = match read_u32(bytes) {
        None => return None,
        Some(x) => x,
    };
    if t == 0 {
        return Some((Message::GetToken, rest));
    }
    if t > 6 {
        return None;
    }
    let (b, rest2) = match read_bytes(rest) {
        None => return None,
        Some(x) => x,
    };
    let m = if t == 1 {
        Message::Error(b)
    } else if t == 2 {
        Message::LoginResponse(b)
    } else if t == 3 {
        Message::Login(b)
    } else if t == 4 {
        Message::Logout(b)
    } else if t == 5 {
        Message::NewState(b)
    } else {
        Message::TokenResponse(b)
    };
    Some((m, rest2))
}

/// Decodes a message; bytes after it are ignored.
pub fn decode_message(bytes: &[u8]) -> (r: Option<Message>)
    ensures
        viewed(r) == value_of(parse_message(bytes@)),
{
    match read_message(bytes) {
        None => None,
        Some((m, _)) => Some(m),
    }
}

/// The frame that reports a server error.
pub open spec fn error_frame(e: ServerError) -> Seq<u8> {
    message_bytes(MessageView::Error(server_error_bytes(e)))
}

/// The frame that hands over a session.
pub open spec fn session_frame(s: UserSessionView) -> Seq<u8> {
    message_bytes(MessageView::LoginResponse(user_session_bytes(s)))
}

/// The frame that asks to log in.
pub open spec fn login_request_frame(r: (u64, u64)) -> Seq<u8> {
    message_bytes(MessageView::Login(login_request_bytes(r)))
}

/// The frame that carries `msg`: its encoding.
pub fn bin_msg(msg: &Message) -> (out: Vec<u8>)
    ensures
        out@ == message_bytes(msg@),
{
    encode_message(msg)
}

/// The frame that reports `err`: an `Error` message carrying its encoding.
pub fn bin_err(err: ServerError) -> (out: Vec<u8>)
    ensures
        out@ == error_frame(err),
{
    bin_msg(&Message::Error(encode_server_error(err)))
}

/// The frame that hands a client its session: a `LoginResponse` message
/// carrying the session's encoding.
pub fn bin_session(ses: &UserSession) -> (out: Vec<u8>)
    ensures
        out@ == session_frame(ses@),
{
    bin_msg(&Message::LoginResponse(encode_user_session(ses)))
}

/// The frame with which a client asks to log in as `user` with `pass`: a
/// `Login` message carrying the request's encoding.
pub fn bin_logreq_tg(user: u64, pass: u64) -> (out: Vec<u8>)
    ensures
        out@ == login_request_frame((user, pass)),
{
    let req = LoginRequest::new(user, pass);
    bin_msg(&Message::Login(encode_login_request(&req)))
}

/// A login request reads back from its encoding.
pub proof fn lemma_login_request_roundtrip(r: (u64, u64), rest: Seq<u8>)
    ensures
        parse_login_request(login_request_bytes(r) + rest) == Some((r, rest)),
{
    let tail = varint(r.1 as nat) + rest;
    assert(login_request_bytes(r) + rest =~= varint(r.0 as nat) + tail);
    lemma_u64_roundtrip(r.0, tail);
    lemma_u64_roundtrip(r.1, rest);
}

/// A stored user whose name a slice can hold reads back from its encoding.
pub proof fn lemma_user_internal_roundtrip(u: UserInternalView, rest: Seq<u8>)
    requires
        encode_utf8(u.name).len() <= usize::MAX,
    ensures
        parse_user_internal(user_internal_bytes(u) + rest) == Some((u, rest)),
{
    let t3 = varint(u.pass as nat) + rest;
    let t2 = capabilities_bytes(u.capabilites) + t3;
    let t1 = str_field(u.name) + t2;
    assert(user_internal_bytes(u) + rest =~= varint(u.user as nat) + t1);
    lemma_u64_roundtrip(u.user, t1);
    lemma_str_roundtrip(u.name, t2);
    lemma_capabilities_roundtrip(u.capabilites, t3);
    lemma_u64_roundtrip(u.pass, rest);
}

/// A session whose name a slice can hold reads back from its encoding.
pub proof fn lemma_user_session_roundtrip(s: UserSessionView, rest: Seq<u8>)
    requires
        encode_utf8(s.name).len() <= usize::MAX,
    ensures
        parse_user_session(user_session_bytes(s) + rest) == Some((s, rest)),
{
    let t3 = str_field(s.name) + rest;
    let t2 = capabilities_bytes(s.role) + t3;
    let t1 = varint(s.token as nat) + t2;
    assert(user_session_bytes(s) + rest =~= varint(s.user as nat) + t1);
    lemma_u64_roundtrip(s.user, t1);
    lemma_u64_roundtrip(s.token, t2);
    lemma_capabilities_roundtrip(s.role, t3);
    lemma_str_roundtrip(s.name, rest);
}

/// A message whose payload a slice can hold reads back from its encoding.
pub proof fn lemma_message_roundtrip(m: MessageView, rest: Seq<u8>)
    requires
        message_payload(m).len() <= usize::MAX,
    ensures
        parse_message(message_bytes(m) + rest) == Some((m, rest)),
{
    match m {
        MessageView::GetToken => {
            lemma_u32_roundtrip(0, rest);
        },
        _ => {
            let p = message_payload(m);
            let t = message_index(m);
            assert(message_bytes(m) + rest =~= varint(t as nat) + (bytes_field(p) + rest));
            lemma_u32_roundtrip(t, bytes_field(p) + rest);
            lemma_bytes_roundtrip(p, rest);
            assert(message_at(t, p) == m);
        },
    }
}

} // verus!
