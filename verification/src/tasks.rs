//! The three tasks of an active connection, each as a function from what
//! happened to what to do next. The caller runs the loops: it waits for the
//! next tick, socket message or cancellation, asks the task's function, and
//! performs the answer.

use crate::error::BilibiliError;
use crate::inbound::handle_message;
use crate::inbound::inbound_is;
use crate::inbound::inbound_of;
use crate::inbound::Inbound;
use crate::json::json_parsed;
use crate::json::Json;
use crate::proto::packed;
use crate::proto::Proto;
use crate::proto::OP_HEARTBEAT;
use crate::session::check_heartbeat_response;
use crate::session::code_of;
use crate::session::heartbeat_body;
use crate::session::heartbeat_request;
use crate::session::request_is;
use crate::session::SignedRequest;
use crate::sign::BilibiliConfig;
use vstd::prelude::*;

verus! {

/// Seconds between two heartbeats, for both heartbeat tasks.
pub const HEARTBEAT_INTERVAL_SECS: u64 = 20;

/// The bytes of a heartbeat frame: opcode 2, no body.
pub open spec fn heartbeat_frame() -> Seq<u8> {
    packed(0, OP_HEARTBEAT as int, 0, Seq::<u8>::empty())
}

/// Builds a heartbeat frame.
pub fn heartbeat_packet() -> (bytes: Vec<u8>)
    ensures
        bytes@ == heartbeat_frame(),
{
    let mut frame = Proto::new();
    frame.op = OP_HEARTBEAT;
    frame.pack()
}

/// What can happen to the task that sends heartbeat frames.
#[derive(Debug, Clone, Copy, PartialEq, Eq, Structural)]
pub enum WsHeartbeatEvent {
    /// The interval elapsed.
    Tick,
    /// The last frame could not be sent.
    SendFailed,
    /// Cancellation was signalled.
    Cancelled,
}

/// What the task that sends heartbeat frames does next.
#[derive(Debug, Clone)]
pub enum WsHeartbeatAction {
    /// Send these bytes as one binary message, then wait again.
    Send(Vec<u8>),
    /// End the task. The other tasks go on.
    Stop,
}

/// Whether the event ends the heartbeat-frame task.
pub open spec fn ws_heartbeat_stops(event: WsHeartbeatEvent) -> bool {
    event is SendFailed || event is Cancelled
}

/// The heartbeat-frame task: a tick sends a heartbeat frame; a failed send
/// or a cancellation ends the task.
pub fn on_ws_heartbeat(event: WsHeartbeatEvent) -> (action: WsHeartbeatAction)
    ensures
        action is Stop <==> ws_heartbeat_stops(event),
        !ws_heartbeat_stops(event) ==> (action matches WsHeartbeatAction::Send(bytes) && bytes@
            == heartbeat_frame()),
{
    match event {
        WsHeartbeatEvent::Tick => WsHeartbeatAction::Send(heartbeat_packet()),
        WsHeartbeatEvent::SendFailed => WsHeartbeatAction::Stop,
        WsHeartbeatEvent::Cancelled => WsHeartbeatAction::Stop,
    }
}

/// What can happen to the task that keeps the session alive.
#[derive(Debug, Clone)]
pub enum AppHeartbeatEvent {
    /// The interval elapsed.
    Tick,
    /// The platform answered the last heartbeat call with this text.
    Response(String),
    /// The last heartbeat call failed on the network.
    TransportFailed,
    /// Cancellation was signalled.
    Cancelled,
}

/// What the task that keeps the session alive does next.
#[derive(Debug, Clone)]
pub enum AppHeartbeatAction {
    /// Send this request, then report its response or failure.
    Post(SignedRequest),
    /// Wait for the next tick.
    Continue,
    /// End the task. The other tasks go on.
    Stop,
}

/// Whether the platform accepted a heartbeat: the response is JSON with
/// status code 0.
pub open spec fn heartbeat_accepted(parsed: Option<Json>) -> bool {
    parsed matches Some(json) && code_of(json) == Some(0i64)
}

/// Whether the event ends the session heartbeat task, whatever else
/// holds: a response that is no acceptance, a network failure, or a
/// cancellation. (A tick ends it only where the request cannot be built.)
pub open spec fn app_heartbeat_stops(event: AppHeartbeatEvent) -> bool {
    match event {
        AppHeartbeatEvent::Tick => false,
        AppHeartbeatEvent::Response(text) => !heartbeat_accepted(json_parsed(text@)),
        AppHeartbeatEvent::TransportFailed => true,
        AppHeartbeatEvent::Cancelled => true,
    }
}

/// What a tick leads to, given the outcome of building the heartbeat
/// request: the request is posted, or the task ends where there is none.
pub open spec fn tick_action(request: Result<SignedRequest, BilibiliError>) -> AppHeartbeatAction {
    match request {
        Ok(request) => AppHeartbeatAction::Post(request),
        Err(_) => AppHeartbeatAction::Stop,
    }
}

/// Decides what a tick leads to from the outcome of building the request.
pub fn after_tick(request: Result<SignedRequest, BilibiliError>) -> (action: AppHeartbeatAction)
    ensures
        action == tick_action(request),
{
    match request {
        Ok(request) => AppHeartbeatAction::Post(request),
        Err(_) => AppHeartbeatAction::Stop,
    }
}

/// The session heartbeat task: a tick posts a heartbeat for `game_id`; an
/// accepted response waits for the next tick; a refusal, a network failure,
/// a request that cannot be built, or a cancellation ends the task.
pub fn on_app_heartbeat(
    config: &BilibiliConfig,
    game_id: &str,
    event: AppHeartbeatEvent,
) -> (action: AppHeartbeatAction)
    ensures
        match event {
            AppHeartbeatEvent::Tick => exists|request: Result<SignedRequest, BilibiliError>|
                {
                    &&& #[trigger] request_is(
                        request,
                        *config,
                        "/v2/app/heartbeat"@,
                        heartbeat_body(game_id@),
                    )
                    &&& action == tick_action(request)
                },
            _ => if app_heartbeat_stops(event) {
                action is Stop
            } else {
                action is Continue
            },
        },
{
    match event {
        AppHeartbeatEvent::Tick => after_tick(heartbeat_request(config, game_id)),
        AppHeartbeatEvent::Response(text) => match check_heartbeat_response(text.as_str()) {
            Ok(()) => AppHeartbeatAction::Continue,
            Err(_) => AppHeartbeatAction::Stop,
        },
        AppHeartbeatEvent::TransportFailed => AppHeartbeatAction::Stop,
        AppHeartbeatEvent::Cancelled => AppHeartbeatAction::Stop,
    }
}

/// What can happen to the task that reads the socket.
#[derive(Debug, Clone)]
pub enum SocketEvent {
    /// A binary message arrived.
    Binary(Vec<u8>),
    /// A message of another kind arrived: text, ping or pong.
    Other,
    /// The peer closed the connection.
    Close,
    /// Reading failed.
    Error,
    /// The stream ended.
    End,
    /// Cancellation was signalled.
    Cancelled,
}

/// What the task that reads the socket does next.
#[derive(Debug)]
pub enum ReceiveAction {
    /// The message was read; report the frame, or the error, and go on
    /// reading. A frame that cannot be read does not end the task.
    Handled(Result<Inbound, BilibiliError>),
    /// Go on reading.
    Ignore,
    /// End the task: the connection is dead, or cancelled.
    Stop,
}

/// Whether the event ends the receive task.
pub open spec fn receive_stops(event: SocketEvent) -> bool {
    event is Close || event is Error || event is End || event is Cancelled
}

/// The receive task: a binary message is read as a frame and the task goes
/// on, whatever came of it; other messages are passed over; a close, a read
/// error, the end of the stream or a cancellation ends the task.
pub fn on_socket_event(event: SocketEvent) -> (action: ReceiveAction)
    ensures
        action is Stop <==> receive_stops(event),
        event matches SocketEvent::Binary(data) ==> (action matches ReceiveAction::Handled(r)
            && inbound_is(r, inbound_of(data@))),
        event is Other ==> action is Ignore,
{
    match event {
        SocketEvent::Binary(data) => ReceiveAction::Handled(handle_message(data.as_slice())),
        SocketEvent::Other => ReceiveAction::Ignore,
        SocketEvent::Close => ReceiveAction::Stop,
        SocketEvent::Error => ReceiveAction::Stop,
        SocketEvent::End => ReceiveAction::Stop,
        SocketEvent::Cancelled => ReceiveAction::Stop,
    }
}

/// Cancellation ends each of the three tasks at the first step that sees
/// it.
pub proof fn lemma_cancellation_stops_every_task()
    ensures
        ws_heartbeat_stops(WsHeartbeatEvent::Cancelled),
        app_heartbeat_stops(AppHeartbeatEvent::Cancelled),
        receive_stops(SocketEvent::Cancelled),
{
}

/// A frame that cannot be read never ends the receive task: only the
/// socket's own end does.
pub proof fn lemma_bad_frame_keeps_receiving(data: Vec<u8>)
    ensures
        !receive_stops(SocketEvent::Binary(data)),
{
}

} // verus!
