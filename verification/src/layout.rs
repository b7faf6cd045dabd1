//! The wire layout, stated byte by byte and field by field over postcard's
//! primitive fields: the declaration position of every enum variant, the
//! order of every struct's fields, and which message a frame must be for the
//! server to take it as a login and for a client to take it as a session.

use vstd::prelude::*;
use vstd::utf8::encode_utf8;
use crate::login::{login_frame, login_reply, LoginReplyView, MessageError};
use crate::user::{
    capabilities_bytes, login_request_bytes, message_bytes, message_payload, parse_capabilities,
    parse_login_request, parse_message, parse_server_error, parse_status, parse_user_internal,
    parse_user_session, server_error_bytes, status_bytes, user_internal_bytes,
    user_session_bytes, MessageView, ServerError, Status, UserCapabilities, UserInternalView,
    UserSessionView,
};
use crate::codec::lemma_message_roundtrip;
use crate::wire::{bytes_field, take_bytes_field, take_str_field, take_u32, take_u64, varint};

verus! {

/// Each capability is written as the one byte of its declaration position.
pub proof fn lemma_capabilities_layout()
    ensures
        capabilities_bytes(UserCapabilities::Admin) == seq![0u8],
        capabilities_bytes(UserCapabilities::Driver) == seq![1u8],
        capabilities_bytes(UserCapabilities::Monitor) == seq![2u8],
{
}

/// A capability is read from a `u32` variant index, by declaration position.
pub proof fn lemma_capabilities_read(s: Seq<u8>)
    ensures
        parse_capabilities(s) == match take_u32(s) {
            None => None,
            Some((t, r)) => if t == 0 {
                Some((UserCapabilities::Admin, r))
            } else if t == 1 {
                Some((UserCapabilities::Driver, r))
            } else if t == 2 {
                Some((UserCapabilities::Monitor, r))
            } else {
                None
            },
        },
{
}

/// Each status is written as the one byte of its declaration position.
pub proof fn lemma_status_layout()
    ensures
        status_bytes(Status::Carga) == seq![0u8],
        status_bytes(Status::Descarga) == seq![1u8],
        status_bytes(Status::TransitoCarga) == seq![2u8],
        status_bytes(Status::TransitoDescarga) == seq![3u8],
        status_bytes(Status::Parada) == seq![4u8],
        status_bytes(Status::TransitoPararador) == seq![5u8],
        status_bytes(Status::Falla) == seq![6u8],
        status_bytes(Status::Emergencia) == seq![7u8],
        status_bytes(Status::FueraDeServicio) == seq![8u8],
{
}

/// A status is read from a `u32` variant index, by declaration position.
pub proof fn lemma_status_read(s: Seq<u8>)
    ensures
        parse_status(s) == match take_u32(s) {
            None => None,
            Some((t, r)) => if t == 0 {
                Some((Status::Carga, r))
            } else if t == 1 {
                Some((Status::Descarga, r))
            } else if t == 2 {
                Some((Status::TransitoCarga, r))
            } else if t == 3 {
                Some((Status::TransitoDescarga, r))
            } else if t == 4 {
                Some((Status::Parada, r))
            } else if t == 5 {
                Some((Status::TransitoPararador, r))
            } else if t == 6 {
                Some((Status::Falla, r))
            } else if t == 7 {
                Some((Status::Emergencia, r))
            } else if t == 8 {
                Some((Status::FueraDeServicio, r))
            } else {
                None
            },
        },
{
}

/// Each server error is written as the one byte of its declaration position.
pub proof fn lemma_server_error_layout()
    ensures
        server_error_bytes(ServerError::BadLogin) == seq![0u8],
        server_error_bytes(ServerError::BadMessageType) == seq![1u8],
        server_error_bytes(ServerError::NoUser) == seq![2u8],
        server_error_bytes(ServerError::BadPass) == seq![3u8],
        server_error_bytes(ServerError::FirstLogin) == seq![4u8],
{
}

/// A server error is read from a `u32` variant index, by declaration position.
pub proof fn lemma_server_error_read(s: Seq<u8>)
    ensures
        parse_server_error(s) == match take_u32(s) {
            None => None,
            Some((t, r)) => if t == 0 {
                Some((ServerError::BadLogin, r))
            } else if t == 1 {
                Some((ServerError::BadMessageType, r))
            } else if t == 2 {
                Some((ServerError::NoUser, r))
            } else if t == 3 {
                Some((ServerError::BadPass, r))
            } else if t == 4 {
                Some((ServerError::FirstLogin, r))
            } else {
                None
            },
        },
{
}

/// Each message is written as the byte of its declaration position, then
/// (but for `GetToken`) its payload as a byte field.
pub proof fn lemma_message_layout(b: Seq<u8>)
    ensures
        message_bytes(MessageView::GetToken) == seq![0u8],
        message_bytes(MessageView::Error(b)) == seq![1u8] + bytes_field(b),
        message_bytes(MessageView::LoginResponse(b)) == seq![2u8] + bytes_field(b),
        message_bytes(MessageView::Login(b)) == seq![3u8] + bytes_field(b),
        message_bytes(MessageView::Logout(b)) == seq![4u8] + bytes_field(b),
        message_bytes(MessageView::NewState(b)) == seq![5u8] + bytes_field(b),
        message_bytes(MessageView::TokenResponse(b)) == seq![6u8] + bytes_field(b),
{
}

/// A message is read from a `u32` variant index, by declaration position,
/// then (but for `GetToken`) a byte field as its payload.
pub proof fn lemma_message_read(s: Seq<u8>)
    ensures
        parse_message(s) == match take_u32(s) {
            None => None,
            Some((t, r)) => if t == 0 {
                Some((MessageView::GetToken, r))
            } else if t > 6 {
                None
            } else {
                match take_bytes_field(r) {
                    None => None,
                    Some((b, r2)) => if t == 1 {
                        Some((MessageView::Error(b), r2))
                    } else if t == 2 {
                        Some((MessageView::LoginResponse(b), r2))
                    } else if t == 3 {
                        Some((MessageView::Login(b), r2))
                    } else if t == 4 {
                        Some((MessageView::Logout(b), r2))
                    } else if t == 5 {
                        Some((MessageView::NewState(b), r2))
                    } else {
                        Some((MessageView::TokenResponse(b), r2))
                    },
                }
            },
        },
{
}

/// A login request is written as the user id's varint, then the password's.
pub proof fn lemma_login_request_layout(user: u64, pass: u64)
    ensures
        login_request_bytes((user, pass)) == varint(user as nat) + varint(pass as nat),
{
}

/// A login request is read as the user id, then the password.
pub proof fn lemma_login_request_read(s: Seq<u8>)
    ensures
        parse_login_request(s) == match take_u64(s) {
            None => None,
            Some((user, r1)) => match take_u64(r1) {
                None => None,
                Some((pass, r2)) => Some(((user, pass), r2)),
            },
        },
{
}

/// A session is written field by field in declaration order: user id,
/// token, role, then the name's UTF-8 length and bytes.
pub proof fn lemma_user_session_layout(s: UserSessionView)
    ensures
        user_session_bytes(s) == varint(s.user as nat) + varint(s.token as nat)
            + capabilities_bytes(s.role) + varint(encode_utf8(s.name).len()) + encode_utf8(
            s.name,
        ),
{
    assert(user_session_bytes(s) =~= varint(s.user as nat) + varint(s.token as nat)
        + capabilities_bytes(s.role) + varint(encode_utf8(s.name).len()) + encode_utf8(s.name));
}

/// A session is read field by field in declaration order.
pub proof fn lemma_user_session_read(s: Seq<u8>)
    ensures
        parse_user_session(s) == match take_u64(s) {
            None => None,
            Some((user, r1)) => match take_u64(r1) {
                None => None,
                Some((token, r2)) => match parse_capabilities(r2) {
                    None => None,
                    Some((role, r3)) => match take_str_field(r3) {
                        None => None,
                        Some((name, r4)) => Some(
                            (UserSessionView { user: user, token: token, role: role, name: name }, r4),
                        ),
                    },
                },
            },
        },
{
}

/// A stored user is written field by field in declaration order: id, the
/// name's UTF-8 length and bytes, capabilities, password.
pub proof fn lemma_user_internal_layout(u: UserInternalView)
    ensures
        user_internal_bytes(u) == varint(u.user as nat) + varint(encode_utf8(u.name).len())
            + encode_utf8(u.name) + capabilities_bytes(u.capabilites) + varint(u.pass as nat),
{
    assert(user_internal_bytes(u) =~= varint(u.user as nat) + varint(encode_utf8(u.name).len())
        + encode_utf8(u.name) + capabilities_bytes(u.capabilites) + varint(u.pass as nat));
}

/// A stored user is read field by field in declaration order.
pub proof fn lemma_user_internal_read(s: Seq<u8>)
    ensures
        parse_user_internal(s) == match take_u64(s) {
            None => None,
            Some((user, r1)) => match take_str_field(r1) {
                None => None,
                Some((name, r2)) => match parse_capabilities(r2) {
                    None => None,
                    Some((caps, r3)) => match take_u64(r3) {
                        None => None,
                        Some((pass, r4)) => Some(
                            (
                                UserInternalView {
                                    user: user,
                                    name: name,
                                    capabilites: caps,
                                    pass: pass,
                                },
                                r4,
                            ),
                        ),
                    },
                },
            },
        },
{
}

/// The server takes a frame as a login only where it is a `Login` message
/// (variant index 3) whose payload starts with two `u64` varints, and the
/// credentials are those two values: the user id first, then the password.
/// Any other message is `NotLogin`; bytes that are no message, or a `Login`
/// payload that is no request, are `CouldNotDecode`.
pub proof fn lemma_login_frame_wire(s: Seq<u8>)
    ensures
        login_frame(s) == match take_u32(s) {
            None => Err(MessageError::CouldNotDecode),
            Some((t, r)) => if t > 6 {
                Err(MessageError::CouldNotDecode)
            } else if t == 0 {
                Err(MessageError::NotLogin)
            } else {
                match take_bytes_field(r) {
                    None => Err(MessageError::CouldNotDecode),
                    Some((b, _)) => if t != 3 {
                        Err(MessageError::NotLogin)
                    } else {
                        match take_u64(b) {
                            None => Err(MessageError::CouldNotDecode),
                            Some((user, b1)) => match take_u64(b1) {
                                None => Err(MessageError::CouldNotDecode),
                                Some((pass, _)) => Ok((user, pass)),
                            },
                        }
                    },
                }
            },
        },
{
    lemma_message_read(s);
}

/// Every message that is not a `Login` one is refused as `NotLogin`.
pub proof fn lemma_only_login_is_login(m: MessageView)
    requires
        !(m is Login),
        message_payload(m).len() <= usize::MAX,
    ensures
        login_frame(message_bytes(m)) == Err::<(u64, u64), MessageError>(MessageError::NotLogin),
{
    lemma_message_roundtrip(m, Seq::empty());
    assert(message_bytes(m) + Seq::<u8>::empty() =~= message_bytes(m));
}

/// A client takes a frame as a session only where it is a `LoginResponse`
/// message (variant index 2) whose payload reads as a session; any other
/// message is `NotSession`, and bytes that are no message, or a
/// `LoginResponse` payload that is no session, are `Undecodable`.
pub proof fn lemma_login_reply_wire(s: Seq<u8>)
    ensures
        login_reply(s) == match take_u32(s) {
            None => LoginReplyView::Undecodable,
            Some((t, r)) => if t > 6 {
                LoginReplyView::Undecodable
            } else if t == 0 {
                LoginReplyView::NotSession
            } else {
                match take_bytes_field(r) {
                    None => LoginReplyView::Undecodable,
                    Some((b, _)) => if t != 2 {
                        LoginReplyView::NotSession
                    } else {
                        match parse_user_session(b) {
                            None => LoginReplyView::Undecodable,
                            Some((sv, _)) => LoginReplyView::Session(sv),
                        }
                    },
                }
            },
        },
{
    lemma_message_read(s);
}

/// Every message that is not a `LoginResponse` reads, on the client, as no session.
pub proof fn lemma_only_login_response_is_session(m: MessageView)
    requires
        !(m is LoginResponse),
        message_payload(m).len() <= usize::MAX,
    ensures
        login_reply(message_bytes(m)) == LoginReplyView::NotSession,
{
    lemma_message_roundtrip(m, Seq::empty());
    assert(message_bytes(m) + Seq::<u8>::empty() =~= message_bytes(m));
}

} // verus!
