use transp_common::codec::{
    bin_err, bin_logreq_tg, bin_msg, bin_session, decode_login_request, decode_message,
    decode_user_internal, decode_user_session, encode_message,
    encode_user_internal, encode_user_session, read_login_request, read_message,
};
use transp_common::user::{
    encode_capabilities, encode_login_request, encode_server_error, encode_status, read_capabilities,
    read_server_error, read_status, LoginRequest, Message, ServerError, Status,
    UserCapabilities, UserInternal, UserSession,
};

#[test]
fn capabilities_are_variant_indexes() {
    assert_eq!(encode_capabilities(UserCapabilities::Admin), vec![0]);
    assert_eq!(encode_capabilities(UserCapabilities::Driver), vec![1]);
    assert_eq!(encode_capabilities(UserCapabilities::Monitor), vec![2]);
    let rest: &[u8] = &[9, 9];
    assert_eq!(read_capabilities(&[2, 9, 9]), Some((UserCapabilities::Monitor, rest)));
    assert_eq!(read_capabilities(&[3]), None);
    assert_eq!(read_capabilities(&[]), None);
}

#[test]
fn overlong_varint_is_accepted_as_postcard_does() {
    let rest: &[u8] = &[];
    assert_eq!(read_capabilities(&[0x81, 0x00]), Some((UserCapabilities::Driver, rest)));
}

#[test]
fn variant_index_over_five_bytes_is_refused() {
    assert_eq!(read_server_error(&[0x80, 0x80, 0x80, 0x80, 0x80, 0x00]), None);
    assert_eq!(read_server_error(&[0xff, 0xff, 0xff, 0xff, 0x10]), None);
}

#[test]
fn status_codes() {
    assert_eq!(encode_status(Status::Carga), vec![0]);
    assert_eq!(encode_status(Status::FueraDeServicio), vec![8]);
    let rest: &[u8] = &[];
    assert_eq!(read_status(&[6]), Some((Status::Falla, rest)));
    assert_eq!(read_status(&[9]), None);
}

#[test]
fn server_error_codes() {
    assert_eq!(encode_server_error(ServerError::BadLogin), vec![0]);
    assert_eq!(encode_server_error(ServerError::NoUser), vec![2]);
    assert_eq!(encode_server_error(ServerError::FirstLogin), vec![4]);
    let rest: &[u8] = &[];
    assert_eq!(read_server_error(&[3]), Some((ServerError::BadPass, rest)));
}

#[test]
fn login_request_encoding() {
    let req = LoginRequest::new(12, 121010);
    assert_eq!(req.get_user(), 12);
    assert_eq!(req.get_pass(), 121010);
    let bytes = encode_login_request(&req);
    assert_eq!(bytes, vec![12, 178, 177, 7]);
    assert_eq!(decode_login_request(&bytes), Some(req));
    let rest: &[u8] = &[5];
    assert_eq!(read_login_request(&[12, 178, 177, 7, 5]), Some((req, rest)));
    assert_eq!(decode_login_request(&[12, 178, 177]), None);
}

#[test]
fn u64_limits() {
    let req = LoginRequest::new(u64::MAX, 0);
    let bytes = encode_login_request(&req);
    assert_eq!(bytes, vec![0xff, 0xff, 0xff, 0xff, 0xff, 0xff, 0xff, 0xff, 0xff, 0x01, 0x00]);
    assert_eq!(decode_login_request(&bytes), Some(req));
    let too_big = [0xff, 0xff, 0xff, 0xff, 0xff, 0xff, 0xff, 0xff, 0xff, 0x02, 0x00];
    assert_eq!(decode_login_request(&too_big), None);
}

#[test]
fn session_encoding() {
    let s = UserSession::new(5, 12, UserCapabilities::Driver, "Pedro".to_string());
    let bytes = encode_user_session(&s);
    assert_eq!(bytes, vec![12, 5, 1, 5, b'P', b'e', b'd', b'r', b'o']);
    assert_eq!(decode_user_session(&bytes), Some(s));
}

#[test]
fn session_with_non_ascii_name() {
    let s = UserSession::new(300, 1, UserCapabilities::Admin, "Ñu".to_string());
    let bytes = encode_user_session(&s);
    assert_eq!(bytes, vec![1, 172, 2, 0, 3, 0xc3, 0x91, b'u']);
    assert_eq!(decode_user_session(&bytes), Some(s));
}

#[test]
fn session_with_invalid_utf8_name_is_refused() {
    assert_eq!(decode_user_session(&[12, 5, 1, 1, 0xff]), None);
    assert_eq!(decode_user_session(&[12, 5, 1, 3, b'a']), None);
    assert_eq!(decode_user_session(&[12, 5, 7, 0]), None);
}

#[test]
fn user_internal_encoding() {
    let u = UserInternal::new(10, "Ana".to_string(), UserCapabilities::Monitor, 101010);
    assert_eq!(u.user, 10);
    assert_eq!(u.name, "Ana");
    assert_eq!(u.capabilites, UserCapabilities::Monitor);
    assert_eq!(u.pass, 101010);
    let bytes = encode_user_internal(&u);
    assert_eq!(bytes, vec![10, 3, b'A', b'n', b'a', 2, 0x92, 0x95, 0x06]);
    assert_eq!(decode_user_internal(&bytes), Some(u));
}

#[test]
fn message_encoding() {
    assert_eq!(encode_message(&Message::GetToken), vec![0]);
    assert_eq!(encode_message(&Message::Logout(vec![7, 8])), vec![4, 2, 7, 8]);
    assert_eq!(encode_message(&Message::TokenResponse(vec![])), vec![6, 0]);
    assert_eq!(decode_message(&[5, 1, 3]), Some(Message::NewState(vec![3])));
    assert_eq!(decode_message(&[0, 99]), Some(Message::GetToken));
    let rest: &[u8] = &[1];
    assert_eq!(read_message(&[1, 0, 1]), Some((Message::Error(vec![]), rest)));
    assert_eq!(decode_message(&[7, 0]), None);
    assert_eq!(decode_message(&[3, 5, 1]), None);
    assert_eq!(decode_message(&[]), None);
}

#[test]
fn message_roundtrip_every_variant() {
    let all = vec![
        Message::GetToken,
        Message::Error(vec![1]),
        Message::LoginResponse(vec![2, 2]),
        Message::Login(vec![3, 3, 3]),
        Message::Logout(vec![]),
        Message::NewState(vec![0; 200]),
        Message::TokenResponse(vec![6]),
    ];
    for m in all {
        let bytes = encode_message(&m);
        assert_eq!(decode_message(&bytes), Some(m));
    }
}

#[test]
fn long_payload_uses_two_length_bytes() {
    let bytes = encode_message(&Message::NewState(vec![0; 200]));
    assert_eq!(&bytes[..3], &[5, 0xc8, 0x01]);
    assert_eq!(bytes.len(), 203);
}

#[test]
fn frames() {
    assert_eq!(bin_msg(&Message::Login(vec![9])), vec![3, 1, 9]);
    assert_eq!(bin_err(ServerError::BadLogin), vec![1, 1, 0]);
    assert_eq!(bin_err(ServerError::NoUser), vec![1, 1, 2]);
    assert_eq!(bin_err(ServerError::FirstLogin), vec![1, 1, 4]);
    assert_eq!(bin_logreq_tg(12, 121010), vec![3, 4, 12, 178, 177, 7]);
    let s = UserSession::new(5, 12, UserCapabilities::Driver, "Pedro".to_string());
    assert_eq!(bin_session(&s), vec![2, 9, 12, 5, 1, 5, b'P', b'e', b'd', b'r', b'o']);
}

#[test]
fn frame_payloads_decode_to_their_values() {
    let frame = bin_err(ServerError::NoUser);
    match decode_message(&frame) {
        Some(Message::Error(b)) => {
            let rest: &[u8] = &[];
            assert_eq!(read_server_error(&b), Some((ServerError::NoUser, rest)));
        }
        other => panic!("unexpected {:?}", other),
    }
    let s = UserSession::new(77, 3, UserCapabilities::Monitor, "Luz".to_string());
    match decode_message(&bin_session(&s)) {
        Some(Message::LoginResponse(b)) => assert_eq!(decode_user_session(&b), Some(s)),
        other => panic!("unexpected {:?}", other),
    }
}

#[test]
fn struct_layouts_match_postcard_on_tuples() {
    let req = LoginRequest::new(u64::MAX, 121010);
    assert_eq!(
        encode_login_request(&req),
        postcard::to_stdvec(&(u64::MAX, 121010u64)).unwrap()
    );
    let s = UserSession::new(300, 1, UserCapabilities::Monitor, "Ñu".to_string());
    assert_eq!(
        encode_user_session(&s),
        postcard::to_stdvec(&(1u64, 300u64, 2u32, "Ñu")).unwrap()
    );
    let u = UserInternal::new(10, "Ana".to_string(), UserCapabilities::Driver, 101010);
    assert_eq!(
        encode_user_internal(&u),
        postcard::to_stdvec(&(10u64, "Ana", 1u32, 101010u64)).unwrap()
    );
    let back: (u64, u64, u32, String) = postcard::from_bytes(&encode_user_session(&s)).unwrap();
    assert_eq!(back, (1, 300, 2, "Ñu".to_string()));
}

#[test]
fn message_layout_matches_postcard_on_tuples() {
    assert_eq!(encode_message(&Message::GetToken), postcard::to_stdvec(&0u32).unwrap());
    assert_eq!(
        encode_message(&Message::Login(vec![1, 2])),
        postcard::to_stdvec(&(3u32, vec![1u8, 2])).unwrap()
    );
    assert_eq!(
        encode_message(&Message::NewState(vec![7; 300])),
        postcard::to_stdvec(&(5u32, vec![7u8; 300])).unwrap()
    );
    assert_eq!(encode_status(Status::Emergencia), postcard::to_stdvec(&7u32).unwrap());
    assert_eq!(encode_server_error(ServerError::BadPass), postcard::to_stdvec(&3u32).unwrap());
}
