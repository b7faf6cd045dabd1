//! The login exchange. A client sends a `Login` frame; the server looks the
//! user up, and either records a session for it and answers with a
//! `LoginResponse` frame, or answers with an `Error` frame and waits for the
//! next attempt.
//!
//! The server's side is a step function from the session database and one
//! websocket event to the updated database and the action to take; the loop
//! that receives events and sends frames runs outside this library.

use std::collections::HashMap;
use vstd::prelude::*;
use crate::codec::{
    lemma_login_request_roundtrip, lemma_message_roundtrip, lemma_user_session_roundtrip,
    login_request_frame, bin_err, bin_session, decode_login_request, decode_message, decode_user_session, error_frame,
    session_frame,
};
use crate::user::{
    lemma_server_error_roundtrip, login_request_bytes, parse_login_request, parse_message,
    parse_server_error, parse_user_session, server_error_bytes, server_error_index,
    user_session_bytes, LoginRequest, Message, MessageView, ServerError, UserInternal,
    UserSession, UserSessionView,
};
use crate::wire::{lemma_u32_varint_len, lemma_u64_varint_len, value_of};
use vstd::utf8::encode_utf8;

verus! {

broadcast use vstd::std_specs::hash::group_hash_axioms;

/// Why a frame is not a usable login request.
#[derive(Clone, Copy, Debug, PartialEq, Eq, Structural)]
pub enum MessageError {
    /// The frame is a message, but not a `Login` one.
    NotLogin,
    /// The frame, or the request it carries, does not decode.
    CouldNotDecode,
}

/// What a frame gives when read as a login request: the user id and
/// password, or the reason it is not one.
pub open spec fn login_frame(s: Seq<u8>) -> Result<(u64, u64), MessageError> {
    match value_of(parse_message(s)) {
        None => Err(MessageError::CouldNotDecode),
        Some(MessageView::Login(b)) => match value_of(parse_login_request(b)) {
            None => Err(MessageError::CouldNotDecode),
            Some(r) => Ok(r),
        },
        Some(_) => Err(MessageError::NotLogin),
    }
}

/// Reads a frame as a login request: a `Login` message whose payload decodes
/// as a request. Bytes after the message, and after the request inside its
/// payload, are ignored.
pub fn decode_login(bytes: &[u8]) -> (r: Result<LoginRequest, MessageError>)
    ensures
        match r {
            Ok(l) => login_frame(bytes@) == Ok::<(u64, u64), MessageError>(l@),
            Err(e) => login_frame(bytes@) == Err::<(u64, u64), MessageError>(e),
        },
{
    match decode_message(bytes) {
        None => Err(MessageError::CouldNotDecode),
        Some(Message::Login(b)) => match decode_login_request(b.as_slice()) {
            None => Err(MessageError::CouldNotDecode),
            Some(l) => Ok(l),
        },
        Some(_) => Err(MessageError::NotLogin),
    }
}

/// The server's state: the token of the live session of each user, and the
/// users that may log in, by id.
pub struct SessionDatabase {
    pub active_sessions: HashMap<u64, u64>,
    pub userdatabase: HashMap<u64, UserInternal>,
}

/// The outcome of a login request against the stored users: the session to
/// open, or the error to report. The stored password is compared with the
/// password the request offers.
pub open spec fn login_outcome(users: Map<u64, UserInternal>, req: (u64, u64), token: u64) -> Result<
    UserSessionView,
    ServerError,
> {
    if !users.contains_key(req.0) {
        Err(ServerError::NoUser)
    } else if users[req.0].pass != req.1 {
        Err(ServerError::BadLogin)
    } else {
        Ok(
            UserSessionView {
                user: req.0,
                token,
                role: users[req.0].capabilites,
                name: users[req.0].name@,
            },
        )
    }
}

/// The live sessions after a login request: an accepted request records
/// `token` as the one session of the stored user's id, replacing any earlier
/// one; a refused request changes nothing.
pub open spec fn sessions_after(
    sessions: Map<u64, u64>,
    users: Map<u64, UserInternal>,
    req: (u64, u64),
    token: u64,
) -> Map<u64, u64> {
    match login_outcome(users, req, token) {
        Ok(_) => sessions.insert(users[req.0].user, token),
        Err(_) => sessions,
    }
}

/// What the socket handed the server while it waits for a login.
pub enum LoginEvent {
    /// A binary frame.
    Binary(Vec<u8>),
    /// A frame of another kind (text, ping, pong, close).
    Other,
    /// The stream ended, or failed.
    Closed,
}

/// What the server does next while it waits for a login.
#[derive(Debug)]
pub enum LoginAction {
    /// Nothing to send; wait for the next event.
    Wait,
    /// Send the frame, then wait for the next event.
    Reply(Vec<u8>),
    /// Send the frame; the user is logged in with the session.
    Accept(UserSession, Vec<u8>),
    /// Close the exchange.
    Stop,
}

/// The action sends `frame` and waits for the next event.
pub open spec fn replies(act: LoginAction, frame: Seq<u8>) -> bool {
    act matches LoginAction::Reply(out) && out@ == frame
}

/// The action opens the session `sv` and sends its frame.
pub open spec fn accepts(act: LoginAction, sv: UserSessionView) -> bool {
    act matches LoginAction::Accept(s, out) && s@ == sv && out@ == session_frame(sv)
}

impl SessionDatabase {
    /// A database with no users and no sessions.
    pub fn new() -> (db: Self)
        ensures
            db.active_sessions@ == Map::<u64, u64>::empty(),
            db.userdatabase@ == Map::<u64, UserInternal>::empty(),
    {
        SessionDatabase { active_sessions: HashMap::new(), userdatabase: HashMap::new() }
    }

    /// Stores `user` under the id `key`, replacing any user stored there.
    pub fn insert_user(&mut self, key: u64, user: UserInternal)
        ensures
            final(self).userdatabase@ == old(self).userdatabase@.insert(key, user),
            final(self).active_sessions@ == old(self).active_sessions@,
    {
        self.userdatabase.insert(key, user);
    }

    /// Handles one login request: where a user is stored under the
    /// requested id and its stored password equals the offered one, records `token` as that
    /// user's session and returns the session; otherwise returns the error.
    pub fn login(&mut self, req: &LoginRequest, token: u64) -> (r: Result<UserSession, ServerError>)
        ensures
            final(self).userdatabase@ == old(self).userdatabase@,
            final(self).active_sessions@ == sessions_after(
                old(self).active_sessions@,
                old(self).userdatabase@,
                req@,
                token,
            ),
            match r {
                Ok(s) => login_outcome(old(self).userdatabase@, req@, token) == Ok::<
                    UserSessionView,
                    ServerError,
                >(s@),
                Err(e) => login_outcome(old(self).userdatabase@, req@, token) == Err::<
                    UserSessionView,
                    ServerError,
                >(e),
            },
    {
        let id = req.get_user();
        match self.userdatabase.get(&id) {
            Some(user) => {
                if user.pass == req.get_pass() {
                    let key = user.user;
                    let role = user.capabilites;
                    let name = user.name.clone();
                    self.active_sessions.insert(key, token);
                    Ok(UserSession::new(token, id, role, name))
                } else {
                    Err(ServerError::BadLogin)
                }
            },
            None => Err(ServerError::NoUser),
        }
    }

    /// One step of the login exchange. A binary frame that is a login
    /// request is answered with the session frame where the login succeeds
    /// and with a `BadLogin` or `NoUser` error frame where it does not; a
    /// binary frame that is not a login request is answered with a
    /// `FirstLogin` error frame; other frames are ignored; the end of the
    /// stream stops the exchange.
    pub fn login_step(&mut self, event: LoginEvent, token: u64) -> (act: LoginAction)
        ensures
            final(self).userdatabase@ == old(self).userdatabase@,
            match event {
                LoginEvent::Closed => {
                    &&& act is Stop
                    &&& final(self).active_sessions@ == old(self).active_sessions@
                },
                LoginEvent::Other => {
                    &&& act is Wait
                    &&& final(self).active_sessions@ == old(self).active_sessions@
                },
                LoginEvent::Binary(frame) => match login_frame(frame@) {
                    Err(_) => {
                        &&& final(self).active_sessions@ == old(self).active_sessions@
                        &&& replies(act, error_frame(ServerError::FirstLogin))
                    },
                    Ok(req) => {
                        &&& final(self).active_sessions@ == sessions_after(
                            old(self).active_sessions@,
                            old(self).userdatabase@,
                            req,
                            token,
                        )
                        &&& match login_outcome(old(self).userdatabase@, req, token) {
                            Ok(sv) => accepts(act, sv),
                            Err(e) => replies(act, error_frame(e)),
                        }
                    },
                },
            },
    {
        match event {
            LoginEvent::Closed => LoginAction::Stop,
            LoginEvent::Other => LoginAction::Wait,
            LoginEvent::Binary(frame) => match decode_login(frame.as_slice()) {
                Err(_) => LoginAction::Reply(bin_err(ServerError::FirstLogin)),
                Ok(req) => match self.login(&req, token) {
                    Ok(session) => {
                        let out = bin_session(&session);
                        LoginAction::Accept(session, out)
                    },
                    Err(e) => LoginAction::Reply(bin_err(e)),
                },
            },
        }
    }
}

/// How a client reads the server's answer to its login frame.
#[derive(Debug)]
pub enum LoginReply {
    /// A `LoginResponse` carrying a session.
    Session(UserSession),
    /// A message of another kind.
    NotSession,
    /// The frame, or the session it carries, does not decode.
    Undecodable,
}

/// The model of a client's reading of a reply.
pub enum LoginReplyView {
    Session(UserSessionView),
    NotSession,
    Undecodable,
}

impl View for LoginReply {
    type V = LoginReplyView;

    open spec fn view(&self) -> LoginReplyView {
        match self {
            LoginReply::Session(s) => LoginReplyView::Session(s@),
            LoginReply::NotSession => LoginReplyView::NotSession,
            LoginReply::Undecodable => LoginReplyView::Undecodable,
        }
    }
}

/// What a client reads from a reply frame.
pub open spec fn login_reply(s: Seq<u8>) -> LoginReplyView {
    match value_of(parse_message(s)) {
        None => LoginReplyView::Undecodable,
        Some(MessageView::LoginResponse(b)) => match value_of(parse_user_session(b)) {
            None => LoginReplyView::Undecodable,
            Some(sv) => LoginReplyView::Session(sv),
        },
        Some(_) => LoginReplyView::NotSession,
    }
}

/// Reads the server's answer to a login frame.
pub fn read_login_reply(frame: &[u8]) -> (r: LoginReply)
    ensures
        r@ == login_reply(frame@),
{
    match decode_message(frame) {
        None => LoginReply::Undecodable,
        Some(Message::LoginResponse(b)) => match decode_user_session(b.as_slice()) {
            None => LoginReply::Undecodable,
            Some(s) => LoginReply::Session(s),
        },
        Some(_) => LoginReply::NotSession,
    }
}

/// A login frame built by a client reads, on the server, as the request it
/// was built from.
pub proof fn lemma_login_request_frame_accepted(r: (u64, u64))
    ensures
        login_frame(login_request_frame(r)) == Ok::<(u64, u64), MessageError>(r),
{
    let payload = login_request_bytes(r);
    lemma_u64_varint_len(r.0);
    lemma_u64_varint_len(r.1);
    lemma_message_roundtrip(MessageView::Login(payload), Seq::empty());
    assert(login_request_frame(r) + Seq::<u8>::empty() =~= login_request_frame(r));
    lemma_login_request_roundtrip(r, Seq::empty());
    assert(payload + Seq::<u8>::empty() =~= payload);
}

/// The frame that hands over a session reads, on the client, as exactly
/// that session.
pub proof fn lemma_session_frame_read(sv: UserSessionView)
    requires
        user_session_bytes(sv).len() <= usize::MAX,
    ensures
        login_reply(session_frame(sv)) == LoginReplyView::Session(sv),
{
    let payload = user_session_bytes(sv);
    lemma_message_roundtrip(MessageView::LoginResponse(payload), Seq::empty());
    assert(session_frame(sv) + Seq::<u8>::empty() =~= session_frame(sv));
    assert(encode_utf8(sv.name).len() <= payload.len());
    lemma_user_session_roundtrip(sv, Seq::empty());
    assert(payload + Seq::<u8>::empty() =~= payload);
}

/// An error frame reads, on the client, as no session, and carries the
/// encoding of its error, which reads back as that error.
pub proof fn lemma_error_frame_read(e: ServerError)
    ensures
        login_reply(error_frame(e)) == LoginReplyView::NotSession,
        value_of(parse_message(error_frame(e))) == Some(
            MessageView::Error(server_error_bytes(e)),
        ),
        value_of(parse_server_error(server_error_bytes(e))) == Some(e),
{
    let payload = server_error_bytes(e);
    lemma_u32_varint_len(server_error_index(e));
    lemma_message_roundtrip(MessageView::Error(payload), Seq::empty());
    assert(error_frame(e) + Seq::<u8>::empty() =~= error_frame(e));
    lemma_server_error_roundtrip(e, Seq::empty());
    assert(payload + Seq::<u8>::empty() =~= payload);
}

/// A login request frame never reads, on the client, as a session.
pub proof fn lemma_login_request_frame_not_reply(r: (u64, u64))
    ensures
        login_reply(login_request_frame(r)) == LoginReplyView::NotSession,
{
    lemma_login_request_frame_accepted(r);
}

/// An accepted login records exactly one session for the user, under the
/// new token, and leaves the sessions of every other user as they were; a
/// refused login leaves all sessions as they were.
pub proof fn lemma_sessions_after_login(
    sessions: Map<u64, u64>,
    users: Map<u64, UserInternal>,
    req: (u64, u64),
    token: u64,
)
    ensures
        ({
            let after = sessions_after(sessions, users, req, token);
            match login_outcome(users, req, token) {
                Ok(_) => {
                    &&& after.contains_key(users[req.0].user)
                    &&& after[users[req.0].user] == token
                    &&& forall|k: u64| k != users[req.0].user ==> #[trigger] after.contains_key(k)
                        == sessions.contains_key(k) && after[k] == sessions[k]
                    &&& after.dom() == sessions.dom().insert(users[req.0].user)
                },
                Err(_) => after == sessions,
            }
        }),
{
}

/// A login succeeds exactly when a user is stored under the requested id
/// and its stored password equals the password the request offers; the
/// session then belongs to that id, carries the token, and takes the stored
/// user's role and name.
pub proof fn lemma_login_outcome(users: Map<u64, UserInternal>, req: (u64, u64), token: u64)
    ensures
        login_outcome(users, req, token) is Ok <==> (users.contains_key(req.0) && users[req.0].pass
            == req.1),
        login_outcome(users, req, token) matches Ok(sv) ==> sv.user == req.0 && sv.token == token
            && sv.role == users[req.0].capabilites && sv.name == users[req.0].name@,
{
}

} // verus!
