use transp_common::codec::{bin_err, bin_logreq_tg, bin_msg, bin_session};
use transp_common::login::{
    decode_login, read_login_reply, LoginAction, LoginEvent, LoginReply, MessageError,
    SessionDatabase,
};
use transp_common::user::{
    encode_login_request, LoginRequest, Message, ServerError, UserCapabilities, UserInternal, UserSession,
};

fn seeded() -> SessionDatabase {
    let mut db = SessionDatabase::new();
    db.insert_user(10, UserInternal::new(10, "Rosa".to_string(), UserCapabilities::Driver, 101010));
    db.insert_user(11, UserInternal::new(11, "Carmen".to_string(), UserCapabilities::Driver, 111010));
    db.insert_user(1, UserInternal::new(1, "Ramon".to_string(), UserCapabilities::Admin, 11010));
    db.insert_user(12, UserInternal::new(12, "Pedro".to_string(), UserCapabilities::Monitor, 121010));
    db.insert_user(7, UserInternal::new(7, "Tomas".to_string(), UserCapabilities::Driver, 7));
    db
}

#[test]
fn decode_login_accepts_a_login_frame() {
    assert_eq!(decode_login(&bin_logreq_tg(12, 121010)), Ok(LoginRequest::new(12, 121010)));
}

#[test]
fn decode_login_refuses_other_messages() {
    assert_eq!(decode_login(&bin_msg(&Message::GetToken)), Err(MessageError::NotLogin));
    assert_eq!(decode_login(&bin_err(ServerError::NoUser)), Err(MessageError::NotLogin));
}

#[test]
fn decode_login_refuses_undecodable_frames() {
    assert_eq!(decode_login(&[]), Err(MessageError::CouldNotDecode));
    assert_eq!(decode_login(&[42]), Err(MessageError::CouldNotDecode));
    assert_eq!(decode_login(&bin_msg(&Message::Login(vec![0x80]))), Err(MessageError::CouldNotDecode));
}

#[test]
fn decode_login_ignores_trailing_bytes() {
    let mut payload = encode_login_request(&LoginRequest::new(3, 4));
    payload.push(99);
    let mut frame = bin_msg(&Message::Login(payload));
    frame.push(98);
    assert_eq!(decode_login(&frame), Ok(LoginRequest::new(3, 4)));
}

#[test]
fn good_login_opens_a_session() {
    let mut db = seeded();
    let act = db.login_step(LoginEvent::Binary(bin_logreq_tg(12, 121010)), 4242);
    match act {
        LoginAction::Accept(s, frame) => {
            let expected = UserSession::new(4242, 12, UserCapabilities::Monitor, "Pedro".to_string());
            assert_eq!(s, expected);
            assert_eq!(frame, bin_session(&expected));
        }
        other => panic!("unexpected {:?}", other),
    }
    assert_eq!(db.active_sessions.get(&12), Some(&4242));
    assert_eq!(db.active_sessions.len(), 1);
}

#[test]
fn password_equal_to_the_user_id_is_not_a_wildcard() {
    let mut db = seeded();
    match db.login_step(LoginEvent::Binary(bin_logreq_tg(7, 0)), 1) {
        LoginAction::Reply(frame) => assert_eq!(frame, bin_err(ServerError::BadLogin)),
        other => panic!("unexpected {:?}", other),
    }
    match db.login_step(LoginEvent::Binary(bin_logreq_tg(12, 12)), 2) {
        LoginAction::Reply(frame) => assert_eq!(frame, bin_err(ServerError::BadLogin)),
        other => panic!("unexpected {:?}", other),
    }
    assert!(matches!(
        db.login_step(LoginEvent::Binary(bin_logreq_tg(7, 7)), 3),
        LoginAction::Accept(_, _)
    ));
    assert_eq!(db.active_sessions.get(&7), Some(&3));
    assert_eq!(db.active_sessions.len(), 1);
}

#[test]
fn wrong_password_is_bad_login() {
    let mut db = seeded();
    match db.login_step(LoginEvent::Binary(bin_logreq_tg(10, 5)), 1) {
        LoginAction::Reply(frame) => assert_eq!(frame, bin_err(ServerError::BadLogin)),
        other => panic!("unexpected {:?}", other),
    }
    assert!(db.active_sessions.is_empty());
}

#[test]
fn unknown_user_is_no_user() {
    let mut db = seeded();
    match db.login_step(LoginEvent::Binary(bin_logreq_tg(99, 121010)), 1) {
        LoginAction::Reply(frame) => assert_eq!(frame, bin_err(ServerError::NoUser)),
        other => panic!("unexpected {:?}", other),
    }
    assert!(db.active_sessions.is_empty());
}

#[test]
fn non_login_frame_asks_for_login_first() {
    let mut db = seeded();
    for frame in [vec![0], vec![], vec![200, 1]] {
        match db.login_step(LoginEvent::Binary(frame), 1) {
            LoginAction::Reply(reply) => assert_eq!(reply, bin_err(ServerError::FirstLogin)),
            other => panic!("unexpected {:?}", other),
        }
    }
    assert!(db.active_sessions.is_empty());
}

#[test]
fn other_frames_wait_and_end_of_stream_stops() {
    let mut db = seeded();
    assert!(matches!(db.login_step(LoginEvent::Other, 1), LoginAction::Wait));
    assert!(matches!(db.login_step(LoginEvent::Closed, 1), LoginAction::Stop));
    assert!(db.active_sessions.is_empty());
}

#[test]
fn second_login_replaces_the_token() {
    let mut db = seeded();
    let _ = db.login_step(LoginEvent::Binary(bin_logreq_tg(1, 11010)), 5);
    let _ = db.login_step(LoginEvent::Binary(bin_logreq_tg(10, 101010)), 6);
    let _ = db.login_step(LoginEvent::Binary(bin_logreq_tg(1, 11010)), 7);
    assert_eq!(db.active_sessions.get(&1), Some(&7));
    assert_eq!(db.active_sessions.get(&10), Some(&6));
    assert_eq!(db.active_sessions.len(), 2);
}

#[test]
fn session_is_keyed_by_the_stored_user_id() {
    let mut db = SessionDatabase::new();
    db.insert_user(20, UserInternal::new(21, "Eva".to_string(), UserCapabilities::Admin, 5));
    match db.login(&LoginRequest::new(20, 5), 9) {
        Ok(s) => assert_eq!(s, UserSession::new(9, 20, UserCapabilities::Admin, "Eva".to_string())),
        Err(e) => panic!("unexpected {:?}", e),
    }
    assert_eq!(db.active_sessions.get(&21), Some(&9));
    assert_eq!(db.active_sessions.get(&20), None);
}

#[test]
fn login_returns_errors_directly() {
    let mut db = seeded();
    assert_eq!(db.login(&LoginRequest::new(10, 0), 1), Err(ServerError::BadLogin));
    assert_eq!(db.login(&LoginRequest::new(0, 0), 1), Err(ServerError::NoUser));
    assert_eq!(db.userdatabase.len(), 5);
}

#[test]
fn client_reads_its_session() {
    let s = UserSession::new(31337, 12, UserCapabilities::Monitor, "Pedro".to_string());
    match read_login_reply(&bin_session(&s)) {
        LoginReply::Session(got) => assert_eq!(got, s),
        other => panic!("unexpected {:?}", other),
    }
}

#[test]
fn client_reads_errors_as_no_session() {
    assert!(matches!(read_login_reply(&bin_err(ServerError::BadLogin)), LoginReply::NotSession));
    assert!(matches!(read_login_reply(&bin_logreq_tg(1, 2)), LoginReply::NotSession));
}

#[test]
fn client_reads_garbage_as_undecodable() {
    assert!(matches!(read_login_reply(&[9]), LoginReply::Undecodable));
    assert!(matches!(
        read_login_reply(&bin_msg(&Message::LoginResponse(vec![1, 2]))),
        LoginReply::Undecodable
    ));
}

#[test]
fn full_exchange() {
    let mut db = seeded();
    let request = bin_logreq_tg(11, 111010);
    let reply = match db.login_step(LoginEvent::Binary(request), 555) {
        LoginAction::Accept(_, frame) => frame,
        other => panic!("unexpected {:?}", other),
    };
    match read_login_reply(&reply) {
        LoginReply::Session(s) => {
            assert_eq!(s.user, 11);
            assert_eq!(s.token, 555);
            assert_eq!(s.role, UserCapabilities::Driver);
            assert_eq!(s.name, "Carmen");
        }
        other => panic!("unexpected {:?}", other),
    }
}
