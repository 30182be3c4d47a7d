use bili_live::error::ErrorKind;
use bili_live::event::Dispatch;
use bili_live::inbound::handle_frame;
use bili_live::inbound::handle_message;
use bili_live::inbound::Inbound;
use bili_live::message::BilibiliMessage;
use bili_live::proto::Proto;
use bili_live::proto::ProtoError;
use std::io::Write;

fn frame(ver: u16, op: u32, body: &[u8]) -> Vec<u8> {
    let mut p = Proto::new();
    p.ver = ver;
    p.op = op;
    p.body = body.to_vec();
    p.pack()
}

fn deflate(data: &[u8]) -> Vec<u8> {
    let mut encoder =
        flate2::write::ZlibEncoder::new(Vec::new(), flate2::Compression::default());
    encoder.write_all(data).unwrap();
    encoder.finish().unwrap()
}

const LIKE: &str = r#"{"cmd":"LIVE_OPEN_PLATFORM_LIKE","data":{"room_id":1,"uid":0,
    "open_id":"o","uname":"测试用户","uface":"f","timestamp":1625097600,
    "like_text":"为主播点赞了","like_count":10,"fans_medal_level":5,
    "fans_medal_name":"m","fans_medal_wearing_status":true,"msg_id":"like_msg"}}"#;

#[test]
fn heartbeat_reply_needs_no_body() {
    assert!(matches!(handle_message(&frame(0, 3, b"")), Ok(Inbound::HeartbeatReply)));
    assert!(matches!(
        handle_message(&frame(1, 3, &[0xff, 0, 0, 1])),
        Ok(Inbound::HeartbeatReply)
    ));
}

#[test]
fn auth_reply_with_code_zero_is_accepted() {
    match handle_message(&frame(0, 8, b"{\"code\":0}")) {
        Ok(Inbound::AuthReply { body, accepted }) => {
            assert_eq!(body, "{\"code\":0}");
            assert!(accepted);
        }
        other => panic!("{:?}", other),
    }
}

#[test]
fn auth_reply_with_other_code_is_reported_not_failed() {
    for body in ["{\"code\":-101}", "{\"code\":\"0\"}", "{}", "[0]"] {
        match handle_message(&frame(0, 8, body.as_bytes())) {
            Ok(Inbound::AuthReply { accepted, .. }) => assert!(!accepted, "{}", body),
            other => panic!("{:?}", other),
        }
    }
}

#[test]
fn auth_reply_that_is_not_json_is_an_error() {
    let err = handle_message(&frame(0, 8, b"welcome")).unwrap_err();
    assert_eq!(err.kind, ErrorKind::Json);
    let err = handle_message(&frame(0, 8, &[0xff])).unwrap_err();
    assert_eq!(err.kind, ErrorKind::Protocol(ProtoError::Utf8Error));
}

#[test]
fn business_message_is_dispatched() {
    match handle_message(&frame(0, 5, LIKE.as_bytes())) {
        Ok(Inbound::Message { body, dispatch: Dispatch::Emit(BilibiliMessage::Like { data }) }) => {
            assert_eq!(body, LIKE);
            assert_eq!(data.like_count, 10);
            assert_eq!(data.like_text, "为主播点赞了");
            assert_eq!(data.guard_level, None);
        }
        other => panic!("{:?}", other),
    }
}

#[test]
fn compressed_business_message_is_dispatched() {
    let inner = frame(0, 5, LIKE.as_bytes());
    match handle_message(&frame(2, 5, &deflate(&inner))) {
        Ok(Inbound::Message { dispatch: Dispatch::Emit(BilibiliMessage::Like { .. }), .. }) => {}
        other => panic!("{:?}", other),
    }
}

#[test]
fn business_message_that_is_not_json_is_no_error() {
    match handle_message(&frame(0, 5, b"plain words")) {
        Ok(Inbound::Message { body, dispatch: Dispatch::NotJson }) => assert_eq!(body, "plain words"),
        other => panic!("{:?}", other),
    }
}

#[test]
fn business_message_whose_body_does_not_decode_is_an_error() {
    let err = handle_message(&frame(7, 5, b"{}")).unwrap_err();
    assert_eq!(err.kind, ErrorKind::Protocol(ProtoError::UnsupportedVersion));
    let err = handle_message(&frame(2, 5, b"garbage")).unwrap_err();
    assert_eq!(err.kind, ErrorKind::Protocol(ProtoError::InflateError));
}

#[test]
fn other_opcodes_show_their_body_where_it_decodes() {
    match handle_message(&frame(0, 99, b"hello")) {
        Ok(Inbound::Other { op, body }) => {
            assert_eq!(op, 99);
            assert_eq!(body.as_deref(), Some("hello"));
        }
        other => panic!("{:?}", other),
    }
    assert!(matches!(
        handle_message(&frame(0, 2, b"")),
        Ok(Inbound::Other { op: 2, body: None })
    ));
    assert!(matches!(
        handle_message(&frame(4, 7, b"x")),
        Ok(Inbound::Other { op: 7, body: None })
    ));
}

#[test]
fn bytes_that_are_no_frame_are_a_protocol_error() {
    let err = handle_message(b"tiny").unwrap_err();
    assert_eq!(err.kind, ErrorKind::Protocol(ProtoError::FrameTooShort));
    let mut bad = frame(0, 5, b"abc");
    bad[5] = 8;
    let err = handle_message(&bad).unwrap_err();
    assert_eq!(err.kind, ErrorKind::Protocol(ProtoError::BadHeaderLength));
    bad = frame(0, 5, b"abc");
    bad.truncate(17);
    let err = handle_message(&bad).unwrap_err();
    assert_eq!(err.kind, ErrorKind::Protocol(ProtoError::TruncatedBody));
}

#[test]
fn handle_frame_takes_a_frame_already_read() {
    let mut p = Proto::new();
    p.op = 8;
    p.body = b"{\"code\":0,\"extra\":1}".to_vec();
    assert!(matches!(handle_frame(&p), Ok(Inbound::AuthReply { accepted: true, .. })));
}
