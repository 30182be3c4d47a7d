use bili_live::error::ErrorKind;
use bili_live::session::check_heartbeat_response;
use bili_live::session::end_request;
use bili_live::session::end_request_body;
use bili_live::session::heartbeat_request;
use bili_live::session::heartbeat_request_body;
use bili_live::session::parse_start_response;
use bili_live::session::start_request;
use bili_live::session::start_request_body;
use bili_live::sign::BilibiliConfig;

fn config() -> BilibiliConfig {
    BilibiliConfig {
        id_code: "CODE1".to_string(),
        app_id: 9876543210,
        access_key: "ak".to_string(),
        access_secret: "sk".to_string(),
        host: "https://live-open.example".to_string(),
    }
}

const STARTED: &str = r#"{
    "code": 0,
    "message": "ok",
    "data": {
        "game_info": {"game_id": "abc123"},
        "websocket_info": {
            "wss_link": ["wss://a.example/sub", "wss://b.example/sub"],
            "auth_body": "{\"roomid\":1}"
        }
    }
}"#;

#[test]
fn start_body_lists_code_then_app_id() {
    assert_eq!(
        start_request_body("CODE1", 123),
        "{\"code\":\"CODE1\",\"app_id\":123}"
    );
}

#[test]
fn start_body_escapes_the_code() {
    assert_eq!(
        start_request_body("a\"b\\c\n", 0),
        "{\"code\":\"a\\\"b\\\\c\\n\",\"app_id\":0}"
    );
}

#[test]
fn bodies_escape_control_characters_and_keep_the_rest() {
    assert_eq!(
        heartbeat_request_body("\u{0}\u{1}\u{8}\t\n\u{b}\u{c}\r\u{1f} \u{7f}/é弹"),
        "{\"game_id\":\"\\u0000\\u0001\\b\\t\\n\\u000b\\f\\r\\u001f \u{7f}/é弹\"}"
    );
    assert_eq!(heartbeat_request_body(""), "{\"game_id\":\"\"}");
}

#[test]
fn heartbeat_body_names_the_session() {
    assert_eq!(heartbeat_request_body("abc123"), "{\"game_id\":\"abc123\"}");
}

#[test]
fn end_body_names_session_and_app() {
    assert_eq!(
        end_request_body("abc123", u64::MAX),
        "{\"game_id\":\"abc123\",\"app_id\":18446744073709551615}"
    );
}

#[test]
fn requests_go_to_their_endpoints() {
    let start = start_request(&config()).unwrap();
    assert_eq!(start.url, "https://live-open.example/v2/app/start");
    assert_eq!(start.body, "{\"code\":\"CODE1\",\"app_id\":9876543210}");
    assert_eq!(start.headers.len(), 9);
    let beat = heartbeat_request(&config(), "abc123").unwrap();
    assert_eq!(beat.url, "https://live-open.example/v2/app/heartbeat");
    assert_eq!(beat.body, "{\"game_id\":\"abc123\"}");
    let end = end_request(&config(), "abc123").unwrap();
    assert_eq!(end.url, "https://live-open.example/v2/app/end");
    assert_eq!(end.body, "{\"game_id\":\"abc123\",\"app_id\":9876543210}");
}

#[test]
fn request_with_bad_access_key_is_refused() {
    let mut bad = config();
    bad.access_key = "a\nb".to_string();
    assert_eq!(start_request(&bad).unwrap_err().kind, ErrorKind::Signing);
}

#[test]
fn start_response_gives_session_and_first_link() {
    let info = parse_start_response(STARTED).unwrap();
    assert_eq!(info.game_id, "abc123");
    assert_eq!(info.ws_url, "wss://a.example/sub");
    assert_eq!(info.auth_body, "{\"roomid\":1}");
}

#[test]
fn start_response_with_nonzero_code_is_a_refusal() {
    let err = parse_start_response(
        r#"{"code": 7002, "message": "房间重复游戏", "data": {"game_info": {"game_id": ""},
            "websocket_info": {"wss_link": [], "auth_body": ""}}}"#,
    )
    .unwrap_err();
    assert_eq!(err.kind, ErrorKind::SessionStartRejected);
    assert_eq!(err.message, "获取WebSocket信息失败: 房间重复游戏");
}

#[test]
fn refusal_is_recognised_without_session_data() {
    let err = parse_start_response(r#"{"code": -400, "message": "bad", "data": null}"#)
        .unwrap_err();
    assert_eq!(err.kind, ErrorKind::SessionStartRejected);
    assert_eq!(err.message(), "获取WebSocket信息失败: bad");
    let err = parse_start_response(r#"{"code": 1, "message": ""}"#).unwrap_err();
    assert_eq!(err.kind, ErrorKind::SessionStartRejected);
}

#[test]
fn every_nonzero_integer_code_is_a_refusal() {
    for code in [
        "1",
        "-1",
        "2147483648",
        "-2147483649",
        "4294967296",
        "1099511627776",
        "9223372036854775807",
        "-9223372036854775808",
        "9223372036854775808",
        "18446744073709551615",
    ] {
        let text = format!(r#"{{"code": {}, "message": "平台消息"}}"#, code);
        let err = parse_start_response(&text).unwrap_err();
        assert_eq!(err.kind, ErrorKind::SessionStartRejected, "{}", code);
        assert_eq!(err.message, "获取WebSocket信息失败: 平台消息", "{}", code);
    }
}

#[test]
fn refusal_needs_an_integer_code_and_a_message() {
    for text in [
        r#"{"code": 1.5, "message": "m"}"#,
        r#"{"code": 1e3, "message": "m"}"#,
        r#"{"code": true, "message": "m"}"#,
        r#"{"code": 7, "message": 7}"#,
        r#"{"code": 7}"#,
    ] {
        let err = parse_start_response(text).unwrap_err();
        assert_eq!(err.kind, ErrorKind::MalformedResponse, "{}", text);
    }
}

#[test]
fn start_response_that_is_not_json_is_refused() {
    assert_eq!(parse_start_response("<html>").unwrap_err().kind, ErrorKind::Json);
    assert_eq!(parse_start_response("").unwrap_err().kind, ErrorKind::Json);
}

#[test]
fn malformed_start_responses_are_refused() {
    let cases = [
        r#"[]"#,
        r#"{"message": "ok"}"#,
        r#"{"code": 0}"#,
        r#"{"code": "0", "message": "ok"}"#,
        r#"{"code": 0.0, "message": "ok"}"#,
        r#"{"code": 0, "message": "ok"}"#,
        r#"{"code": 0, "message": "ok", "data": {}}"#,
        r#"{"code": 0, "message": "ok", "data": {"game_info": {"game_id": 5},
            "websocket_info": {"wss_link": ["w"], "auth_body": "a"}}}"#,
        r#"{"code": 0, "message": "ok", "data": {"game_info": {"game_id": "g"},
            "websocket_info": {"wss_link": [], "auth_body": "a"}}}"#,
        r#"{"code": 0, "message": "ok", "data": {"game_info": {"game_id": "g"},
            "websocket_info": {"wss_link": ["w", 3], "auth_body": "a"}}}"#,
        r#"{"code": 0, "message": "ok", "data": {"game_info": {"game_id": "g"},
            "websocket_info": {"wss_link": "w", "auth_body": "a"}}}"#,
        r#"{"code": 0, "message": "ok", "data": {"game_info": {"game_id": "g"},
            "websocket_info": {"wss_link": ["w"]}}}"#,
    ];
    for text in cases {
        let err = parse_start_response(text).unwrap_err();
        assert_eq!(err.kind, ErrorKind::MalformedResponse, "{}", text);
    }
}

#[test]
fn heartbeat_with_code_zero_is_accepted() {
    assert!(check_heartbeat_response(r#"{"code":0,"message":"0","data":{}}"#).is_ok());
}

#[test]
fn heartbeat_with_other_code_is_refused_with_the_text() {
    let text = r#"{"code":7003,"message":"心跳过期"}"#;
    let err = check_heartbeat_response(text).unwrap_err();
    assert_eq!(err.kind, ErrorKind::HeartbeatRejected);
    assert_eq!(err.message, format!("应用心跳失败: {}", text));
}

#[test]
fn heartbeat_without_integer_code_is_refused() {
    for text in [r#"{}"#, r#"{"code":"0"}"#, r#"{"code":0.0}"#, r#"[0]"#, r#"null"#] {
        let err = check_heartbeat_response(text).unwrap_err();
        assert_eq!(err.kind, ErrorKind::HeartbeatRejected, "{}", text);
    }
}

#[test]
fn heartbeat_that_is_not_json_is_refused() {
    assert_eq!(check_heartbeat_response("oops").unwrap_err().kind, ErrorKind::Json);
}
