use bili_live::client::auth_packet;
use bili_live::client::BilibiliClient;
use bili_live::client::CloseStep;
use bili_live::client::ConnState;
use bili_live::error::ErrorKind;
use bili_live::inbound::Inbound;
use bili_live::proto::Proto;
use bili_live::proto::ProtoError;
use bili_live::proto::MAX_BODY_SIZE;
use bili_live::sign::BilibiliConfig;
use bili_live::tasks::heartbeat_packet;
use bili_live::tasks::on_app_heartbeat;
use bili_live::tasks::on_socket_event;
use bili_live::tasks::on_ws_heartbeat;
use bili_live::tasks::AppHeartbeatAction;
use bili_live::tasks::AppHeartbeatEvent;
use bili_live::tasks::ReceiveAction;
use bili_live::tasks::SocketEvent;
use bili_live::tasks::WsHeartbeatAction;
use bili_live::tasks::WsHeartbeatEvent;
use bili_live::tasks::HEARTBEAT_INTERVAL_SECS;

fn config() -> BilibiliConfig {
    BilibiliConfig {
        id_code: "CODE1".to_string(),
        app_id: 42,
        access_key: "ak".to_string(),
        access_secret: "sk".to_string(),
        host: "https://live-open.example".to_string(),
    }
}

const STARTED: &str = r#"{"code":0,"message":"ok","data":{"game_info":{"game_id":"abc123"},
    "websocket_info":{"wss_link":["wss://a.example/sub"],"auth_body":"{\"key\":\"v\"}"}}}"#;

fn active_client() -> BilibiliClient {
    let mut client = BilibiliClient::new(config());
    client.connect().unwrap();
    client.session_started(STARTED).unwrap();
    assert!(client.activate());
    client
}

#[test]
fn end_to_end_scenario() {
    let mut client = BilibiliClient::new(config());
    assert_eq!(client.state(), ConnState::Idle);
    assert_eq!(client.game_id(), None);

    let start = client.connect().unwrap();
    assert_eq!(start.url, "https://live-open.example/v2/app/start");
    assert_eq!(start.body, "{\"code\":\"CODE1\",\"app_id\":42}");
    assert_eq!(client.state(), ConnState::Connecting);

    let plan = client.session_started(STARTED).unwrap();
    assert_eq!(client.game_id().as_deref(), Some("abc123"));
    assert_eq!(plan.ws_url, "wss://a.example/sub");
    assert_eq!(client.state(), ConnState::Connecting);

    // The authentication frame is the first thing sent.
    let mut auth = Proto::new();
    auth.unpack(&plan.auth_packet).unwrap();
    assert_eq!(auth.op, 7);
    assert_eq!(auth.ver, 0);
    assert_eq!(auth.body, b"{\"key\":\"v\"}".to_vec());

    assert!(client.activate());
    assert_eq!(client.state(), ConnState::Active);

    // After one interval both heartbeats fire.
    assert_eq!(HEARTBEAT_INTERVAL_SECS, 20);
    match on_ws_heartbeat(WsHeartbeatEvent::Tick) {
        WsHeartbeatAction::Send(bytes) => {
            let mut beat = Proto::new();
            beat.unpack(&bytes).unwrap();
            assert_eq!(beat.op, 2);
            assert!(beat.body.is_empty());
            assert_eq!(bytes.len(), 16);
        }
        other => panic!("{:?}", other),
    }
    let game_id = client.game_id().unwrap();
    match on_app_heartbeat(&config(), &game_id, AppHeartbeatEvent::Tick) {
        AppHeartbeatAction::Post(request) => {
            assert_eq!(request.url, "https://live-open.example/v2/app/heartbeat");
            assert_eq!(request.body, "{\"game_id\":\"abc123\"}");
        }
        other => panic!("{:?}", other),
    }

    let steps = client.close();
    assert_eq!(client.state(), ConnState::Closing);
    assert_eq!(steps.len(), 3);
    assert!(matches!(steps[0], CloseStep::Cancel));
    assert!(matches!(steps[1], CloseStep::CloseSocket));
    match &steps[2] {
        CloseStep::EndSession(request) => {
            assert_eq!(request.url, "https://live-open.example/v2/app/end");
            assert_eq!(request.body, "{\"game_id\":\"abc123\",\"app_id\":42}");
        }
        other => panic!("{:?}", other),
    }
    client.closed();
    assert_eq!(client.state(), ConnState::Closed);
    assert_eq!(client.game_id(), None);
}

#[test]
fn close_when_idle_is_a_no_op() {
    let mut client = BilibiliClient::new(config());
    assert!(client.close().is_empty());
    assert_eq!(client.state(), ConnState::Idle);
    client.closed();
    assert_eq!(client.state(), ConnState::Idle);
}

#[test]
fn close_twice_asks_for_the_steps_once() {
    let mut client = active_client();
    assert_eq!(client.close().len(), 3);
    assert!(client.close().is_empty());
    assert_eq!(client.state(), ConnState::Closing);
    client.closed();
    assert!(client.close().is_empty());
    assert_eq!(client.state(), ConnState::Closed);
}

#[test]
fn connect_when_not_idle_is_a_caller_error() {
    let mut client = BilibiliClient::new(config());
    client.connect().unwrap();
    let err = client.connect().unwrap_err();
    assert_eq!(err.kind, ErrorKind::InvalidState);
    assert_eq!(client.state(), ConnState::Connecting);

    let mut client = active_client();
    assert_eq!(client.connect().unwrap_err().kind, ErrorKind::InvalidState);
    assert_eq!(client.state(), ConnState::Active);
    client.close();
    client.closed();
    assert_eq!(client.connect().unwrap_err().kind, ErrorKind::InvalidState);
    assert_eq!(client.state(), ConnState::Closed);
}

#[test]
fn connect_with_unsignable_credentials_stays_idle() {
    let mut bad = config();
    bad.access_key = "a\rb".to_string();
    let mut client = BilibiliClient::new(bad);
    assert_eq!(client.connect().unwrap_err().kind, ErrorKind::Signing);
    assert_eq!(client.state(), ConnState::Idle);
}

#[test]
fn refused_session_start_falls_back_to_idle() {
    let mut client = BilibiliClient::new(config());
    client.connect().unwrap();
    let err = client
        .session_started(r#"{"code":7001,"message":"请求冷却期","data":null}"#)
        .unwrap_err();
    assert_eq!(err.kind, ErrorKind::SessionStartRejected);
    assert_eq!(err.message, "获取WebSocket信息失败: 请求冷却期");
    assert_eq!(client.state(), ConnState::Idle);
    assert_eq!(client.game_id(), None);
    // A new attempt may follow.
    assert!(client.connect().is_ok());
}

#[test]
fn unreadable_start_response_falls_back_to_idle() {
    let mut client = BilibiliClient::new(config());
    client.connect().unwrap();
    assert_eq!(client.session_started("<html>").unwrap_err().kind, ErrorKind::Json);
    assert_eq!(client.state(), ConnState::Idle);
    client.connect().unwrap();
    assert_eq!(
        client.session_started(r#"{"code":0,"message":"ok"}"#).unwrap_err().kind,
        ErrorKind::MalformedResponse
    );
    assert_eq!(client.state(), ConnState::Idle);
}

#[test]
fn session_started_outside_connecting_changes_nothing() {
    let mut client = BilibiliClient::new(config());
    assert_eq!(client.session_started(STARTED).unwrap_err().kind, ErrorKind::InvalidState);
    assert_eq!(client.state(), ConnState::Idle);
    assert_eq!(client.game_id(), None);
    let mut client = active_client();
    assert_eq!(client.session_started(STARTED).unwrap_err().kind, ErrorKind::InvalidState);
    assert_eq!(client.state(), ConnState::Active);
}

#[test]
fn activate_needs_a_started_session() {
    let mut client = BilibiliClient::new(config());
    assert!(!client.activate());
    assert_eq!(client.state(), ConnState::Idle);
    client.connect().unwrap();
    assert!(!client.activate());
    assert_eq!(client.state(), ConnState::Connecting);
}

#[test]
fn failed_socket_falls_back_to_idle() {
    let mut client = BilibiliClient::new(config());
    client.connect().unwrap();
    client.session_started(STARTED).unwrap();
    client.abort_connect();
    assert_eq!(client.state(), ConnState::Idle);
    assert_eq!(client.game_id(), None);
    let mut client = active_client();
    client.abort_connect();
    assert_eq!(client.state(), ConnState::Active);
    assert_eq!(client.game_id().as_deref(), Some("abc123"));
}

#[test]
fn auth_packet_is_an_opcode_7_frame() {
    let bytes = auth_packet("hi").unwrap();
    assert_eq!(
        bytes,
        vec![0, 0, 0, 18, 0, 16, 0, 0, 0, 0, 0, 7, 0, 0, 0, 0, b'h', b'i']
    );
    let big = "x".repeat(MAX_BODY_SIZE);
    assert_eq!(auth_packet(&big).unwrap().len(), MAX_BODY_SIZE + 16);
    let too_big = "x".repeat(MAX_BODY_SIZE + 1);
    assert_eq!(
        auth_packet(&too_big).unwrap_err().kind,
        ErrorKind::Protocol(ProtoError::BodyTooLarge)
    );
}

#[test]
fn heartbeat_packet_is_a_bare_header() {
    assert_eq!(
        heartbeat_packet(),
        vec![0, 0, 0, 16, 0, 16, 0, 0, 0, 0, 0, 2, 0, 0, 0, 0]
    );
}

#[test]
fn cancellation_stops_all_three_tasks() {
    assert!(matches!(on_ws_heartbeat(WsHeartbeatEvent::Cancelled), WsHeartbeatAction::Stop));
    assert!(matches!(
        on_app_heartbeat(&config(), "abc123", AppHeartbeatEvent::Cancelled),
        AppHeartbeatAction::Stop
    ));
    assert!(matches!(on_socket_event(SocketEvent::Cancelled), ReceiveAction::Stop));
}

#[test]
fn failed_send_stops_only_the_frame_heartbeat() {
    assert!(matches!(on_ws_heartbeat(WsHeartbeatEvent::SendFailed), WsHeartbeatAction::Stop));
}

#[test]
fn app_heartbeat_goes_on_while_accepted() {
    let accepted = AppHeartbeatEvent::Response("{\"code\":0}".to_string());
    assert!(matches!(
        on_app_heartbeat(&config(), "abc123", accepted),
        AppHeartbeatAction::Continue
    ));
    let refused = AppHeartbeatEvent::Response("{\"code\":7003}".to_string());
    assert!(matches!(on_app_heartbeat(&config(), "abc123", refused), AppHeartbeatAction::Stop));
    let garbled = AppHeartbeatEvent::Response("502 Bad Gateway".to_string());
    assert!(matches!(on_app_heartbeat(&config(), "abc123", garbled), AppHeartbeatAction::Stop));
    assert!(matches!(
        on_app_heartbeat(&config(), "abc123", AppHeartbeatEvent::TransportFailed),
        AppHeartbeatAction::Stop
    ));
}

#[test]
fn app_heartbeat_stops_where_the_request_cannot_be_signed() {
    let mut bad = config();
    bad.access_key = "\n".to_string();
    assert!(matches!(
        on_app_heartbeat(&bad, "abc123", AppHeartbeatEvent::Tick),
        AppHeartbeatAction::Stop
    ));
}

#[test]
fn receive_task_reads_frames_and_survives_bad_ones() {
    match on_socket_event(SocketEvent::Binary(heartbeat_reply())) {
        ReceiveAction::Handled(Ok(Inbound::HeartbeatReply)) => {}
        other => panic!("{:?}", other),
    }
    match on_socket_event(SocketEvent::Binary(vec![1, 2, 3])) {
        ReceiveAction::Handled(Err(e)) => {
            assert_eq!(e.kind, ErrorKind::Protocol(ProtoError::FrameTooShort))
        }
        other => panic!("{:?}", other),
    }
    assert!(matches!(on_socket_event(SocketEvent::Other), ReceiveAction::Ignore));
}

#[test]
fn receive_task_ends_with_the_socket() {
    assert!(matches!(on_socket_event(SocketEvent::Close), ReceiveAction::Stop));
    assert!(matches!(on_socket_event(SocketEvent::Error), ReceiveAction::Stop));
    assert!(matches!(on_socket_event(SocketEvent::End), ReceiveAction::Stop));
}

fn heartbeat_reply() -> Vec<u8> {
    let mut p = Proto::new();
    p.op = 3;
    p.pack()
}
