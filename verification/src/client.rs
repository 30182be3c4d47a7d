//! The connection supervisor as a state machine. It decides; the caller
//! performs the network calls and reports back what happened.
//!
//! ```text
//! Idle --connect--> Connecting --activate--> Active --close--> Closing --closed--> Closed
//!                       |
//!                       +--session_started fails / abort_connect--> Idle
//! ```

use crate::error::BilibiliError;
use crate::error::ErrorKind;
use crate::json::json_parsed;
use crate::proto::packed;
use crate::proto::Proto;
use crate::proto::ProtoError;
use crate::proto::MAX_BODY_SIZE;
use crate::proto::OP_AUTH;
use crate::session::end_body;
use crate::session::end_request;
use crate::session::parse_start_response;
use crate::session::request_is;
use crate::session::start_body;
use crate::session::start_outcome;
use crate::session::start_result_is;
use crate::session::start_request;
use crate::session::SignedRequest;
use crate::session::StartOutcome;
use crate::sign::BilibiliConfig;
use vstd::prelude::*;
use vstd::utf8::encode_utf8;

verus! {

/// Where a connection stands.
#[derive(Debug, Clone, Copy, PartialEq, Eq, Structural)]
pub enum ConnState {
    /// Nothing has been started.
    Idle,
    /// The session is being started and the socket opened.
    Connecting,
    /// The authentication frame is sent and the three tasks run.
    Active,
    /// The tasks are being stopped and the session ended.
    Closing,
    /// The connection is over.
    Closed,
}

/// What the caller does after a successful session start: open a socket to
/// `ws_url` and send `auth_packet` as its first binary message.
#[derive(Debug, Clone)]
pub struct ConnectPlan {
    pub ws_url: String,
    pub auth_packet: Vec<u8>,
}

/// One step of tearing a connection down.
#[derive(Debug, Clone)]
pub enum CloseStep {
    /// Signal cancellation to the three tasks, once.
    Cancel,
    /// Close the write side of the socket.
    CloseSocket,
    /// Tell the platform that the session is over. A failure of this call
    /// is reported and otherwise ignored.
    EndSession(SignedRequest),
}

/// The mathematical content of a client.
pub struct ClientView {
    pub config: BilibiliConfig,
    pub state: ConnState,
    pub game_id: Option<String>,
}

/// Where a connection stands, with the session handle it holds there.
enum Phase {
    Idle,
    Connecting(Option<String>),
    Active(String),
    Closing(String),
    Closed,
}

/// The supervisor of one connection.
pub struct BilibiliClient {
    config: BilibiliConfig,
    phase: Phase,
}

impl View for BilibiliClient {
    type V = ClientView;

    closed spec fn view(&self) -> ClientView {
        ClientView {
            config: self.config,
            state: match self.phase {
                Phase::Idle => ConnState::Idle,
                Phase::Connecting(_) => ConnState::Connecting,
                Phase::Active(_) => ConnState::Active,
                Phase::Closing(_) => ConnState::Closing,
                Phase::Closed => ConnState::Closed,
            },
            game_id: match self.phase {
                Phase::Connecting(game_id) => game_id,
                Phase::Active(game_id) => Some(game_id),
                Phase::Closing(game_id) => Some(game_id),
                _ => None,
            },
        }
    }
}

/// The bytes of the authentication frame for `auth_body`.
pub open spec fn auth_frame(auth_body: Seq<char>) -> Seq<u8> {
    packed(0, OP_AUTH as int, 0, encode_utf8(auth_body))
}

/// Builds the authentication frame: opcode 7 with `auth_body` as its body.
/// A body over the frame limit is refused.
pub fn auth_packet(auth_body: &str) -> (r: Result<Vec<u8>, BilibiliError>)
    ensures
        match r {
            Ok(bytes) => encode_utf8(auth_body@).len() <= MAX_BODY_SIZE && bytes@ == auth_frame(
                auth_body@,
            ),
            Err(e) => encode_utf8(auth_body@).len() > MAX_BODY_SIZE && e.kind
                == ErrorKind::Protocol(ProtoError::BodyTooLarge),
        },
{
    let body = auth_body.as_bytes_vec();
    if body.len() > MAX_BODY_SIZE {
        return Err(BilibiliError::protocol(ProtoError::BodyTooLarge));
    }
    let mut frame = Proto::new();
    frame.body = body;
    frame.op = OP_AUTH;
    Ok(frame.pack())
}

/// The steps of tearing down, given the outcome of building the request
/// that ends the session: cancel, close the socket, and then the request
/// where there is one.
pub open spec fn close_plan(end: Result<SignedRequest, BilibiliError>) -> Seq<CloseStep> {
    match end {
        Ok(request) => seq![
            CloseStep::Cancel,
            CloseStep::CloseSocket,
            CloseStep::EndSession(request),
        ],
        Err(_) => seq![CloseStep::Cancel, CloseStep::CloseSocket],
    }
}

/// Lists the steps of tearing down. Stopping the heartbeats comes first and
/// telling the platform last, so that no heartbeat fires on a socket that
/// is going away.
pub fn close_steps(end: Result<SignedRequest, BilibiliError>) -> (steps: Vec<CloseStep>)
    ensures
        steps@ == close_plan(end),
{
    let mut steps: Vec<CloseStep> = Vec::new();
    steps.push(CloseStep::Cancel);
    steps.push(CloseStep::CloseSocket);
    match end {
        Ok(request) => {
            steps.push(CloseStep::EndSession(request));
        },
        Err(_) => {},
    }
    assert(steps@ =~= close_plan(end));
    steps
}

impl BilibiliClient {
    /// A client that has not connected yet.
    pub fn new(config: BilibiliConfig) -> (c: BilibiliClient)
        ensures
            c@ == (ClientView { config, state: ConnState::Idle, game_id: None }),
    {
        BilibiliClient { config, phase: Phase::Idle }
    }

    /// A session handle is held while the connection is active or closing,
    /// and none while it is idle or closed.
    pub proof fn lemma_session_held(&self)
        ensures
            (self@.state == ConnState::Idle || self@.state == ConnState::Closed)
                ==> self@.game_id is None,
            (self@.state == ConnState::Active || self@.state == ConnState::Closing)
                ==> self@.game_id is Some,
    {
    }

    /// Where the connection stands.
    pub fn state(&self) -> (s: ConnState)
        ensures
            s == self@.state,
    {
        match &self.phase {
            Phase::Idle => ConnState::Idle,
            Phase::Connecting(_) => ConnState::Connecting,
            Phase::Active(_) => ConnState::Active,
            Phase::Closing(_) => ConnState::Closing,
            Phase::Closed => ConnState::Closed,
        }
    }

    /// The handle of the running session, if one was started.
    pub fn game_id(&self) -> (g: Option<String>)
        ensures
            g == self@.game_id,
    {
        match &self.phase {
            Phase::Connecting(Some(game_id)) => Some(game_id.clone()),
            Phase::Active(game_id) => Some(game_id.clone()),
            Phase::Closing(game_id) => Some(game_id.clone()),
            _ => None,
        }
    }

    /// Begins to connect: from `Idle`, moves to `Connecting` and hands back
    /// the signed request that starts the session. In any other state this
    /// is an error and nothing changes. Where the request cannot be built
    /// the client stays `Idle`.
    pub fn connect(&mut self) -> (r: Result<SignedRequest, BilibiliError>)
        ensures
            final(self)@.config == old(self)@.config,
            final(self)@.game_id == old(self)@.game_id,
            old(self)@.state != ConnState::Idle ==> {
                &&& r matches Err(e)
                &&& e.kind == ErrorKind::InvalidState
                &&& final(self)@.state == old(self)@.state
            },
            old(self)@.state == ConnState::Idle ==> {
                &&& request_is(
                    r,
                    old(self)@.config,
                    "/v2/app/start"@,
                    start_body(old(self)@.config.id_code@, old(self)@.config.app_id),
                )
                &&& final(self)@.state == if r is Ok {
                    ConnState::Connecting
                } else {
                    ConnState::Idle
                }
            },
    {
        match &self.phase {
            Phase::Idle => {},
            _ => {
                return Err(
                    BilibiliError::with_text(ErrorKind::InvalidState, "connect: not idle"),
                );
            },
        }
        let request = start_request(&self.config)?;
        self.phase = Phase::Connecting(None);
        Ok(request)
    }

    /// Takes the platform's answer to the start request. On success the
    /// session handle is kept and the plan for the socket handed back; on
    /// any failure the client falls back to `Idle`. Outside `Connecting`
    /// this is an error and nothing changes.
    pub fn session_started(&mut self, response: &str) -> (r: Result<ConnectPlan, BilibiliError>)
        ensures
            final(self)@.config == old(self)@.config,
            old(self)@.state != ConnState::Connecting ==> {
                &&& r matches Err(e)
                &&& e.kind == ErrorKind::InvalidState
                &&& final(self)@ == old(self)@
            },
            old(self)@.state == ConnState::Connecting ==> match start_outcome(
                json_parsed(response@),
            ) {
                StartOutcome::Started(info) if encode_utf8(info.auth_body@).len()
                    <= MAX_BODY_SIZE => {
                    &&& r matches Ok(plan)
                    &&& plan.ws_url == info.ws_url
                    &&& plan.auth_packet@ == auth_frame(info.auth_body@)
                    &&& final(self)@.state == ConnState::Connecting
                    &&& final(self)@.game_id == Some(info.game_id)
                },
                StartOutcome::Started(_) => {
                    &&& r matches Err(e)
                    &&& e.kind == ErrorKind::Protocol(ProtoError::BodyTooLarge)
                    &&& final(self)@.state == ConnState::Idle
                    &&& final(self)@.game_id is None
                },
                failed => {
                    &&& r matches Err(e)
                    &&& start_result_is(Err(e), failed)
                    &&& final(self)@.state == ConnState::Idle
                    &&& final(self)@.game_id is None
                },
            },
    {
        match &self.phase {
            Phase::Connecting(_) => {},
            _ => {
                return Err(
                    BilibiliError::with_text(
                        ErrorKind::InvalidState,
                        "session_started: not connecting",
                    ),
                );
            },
        }
        let info = match parse_start_response(response) {
            Ok(info) => info,
            Err(e) => {
                self.phase = Phase::Idle;
                return Err(e);
            },
        };
        match auth_packet(info.auth_body.as_str()) {
            Ok(packet) => {
                self.phase = Phase::Connecting(Some(info.game_id));
                Ok(ConnectPlan { ws_url: info.ws_url, auth_packet: packet })
            },
            Err(e) => {
                self.phase = Phase::Idle;
                Err(e)
            },
        }
    }

    /// The socket is open and the authentication frame is sent: from
    /// `Connecting` with a session, the connection becomes `Active` and the
    /// caller starts the three tasks. Tells whether it did.
    pub fn activate(&mut self) -> (started: bool)
        ensures
            final(self)@.config == old(self)@.config,
            final(self)@.game_id == old(self)@.game_id,
            started == (old(self)@.state == ConnState::Connecting && old(self)@.game_id is Some),
            final(self)@.state == if started {
                ConnState::Active
            } else {
                old(self)@.state
            },
    {
        let game_id = match &self.phase {
            Phase::Connecting(Some(game_id)) => game_id.clone(),
            _ => {
                return false;
            },
        };
        self.phase = Phase::Active(game_id);
        true
    }

    /// Opening the socket or sending the authentication frame failed: from
    /// `Connecting`, the client falls back to `Idle` and forgets the
    /// session. In any other state nothing changes.
    pub fn abort_connect(&mut self)
        ensures
            final(self)@.config == old(self)@.config,
            old(self)@.state == ConnState::Connecting ==> final(self)@.state == ConnState::Idle
                && final(self)@.game_id is None,
            old(self)@.state != ConnState::Connecting ==> final(self)@ == old(self)@,
    {
        match &self.phase {
            Phase::Connecting(_) => {
                self.phase = Phase::Idle;
            },
            _ => {},
        }
    }

    /// Begins to close. From `Active` the client moves to `Closing` and
    /// hands back what to do, in order: cancel the tasks, close the socket,
    /// end the session. The last step is left out where its request cannot
    /// be built. In any other state there is nothing to do and nothing
    /// changes.
    pub fn close(&mut self) -> (steps: Vec<CloseStep>)
        ensures
            final(self)@.config == old(self)@.config,
            final(self)@.game_id == old(self)@.game_id,
            old(self)@.state != ConnState::Active ==> steps@.len() == 0 && final(self)@.state
                == old(self)@.state,
            old(self)@.state == ConnState::Active ==> {
                &&& final(self)@.state == ConnState::Closing
                &&& old(self)@.game_id matches Some(game_id)
                &&& exists|end: Result<SignedRequest, BilibiliError>|
                    {
                        &&& #[trigger] request_is(
                            end,
                            old(self)@.config,
                            "/v2/app/end"@,
                            end_body(game_id@, old(self)@.config.app_id),
                        )
                        &&& steps@ == close_plan(end)
                    }
            },
    {
        let game_id = match &self.phase {
            Phase::Active(game_id) => game_id.clone(),
            _ => {
                return Vec::new();
            },
        };
        let end = end_request(&self.config, game_id.as_str());
        self.phase = Phase::Closing(game_id);
        assert(request_is(
            end,
            old(self)@.config,
            "/v2/app/end"@,
            end_body(old(self)@.game_id->0@, old(self)@.config.app_id),
        ));
        close_steps(end)
    }

    /// The steps of `close` are done: from `Closing` the connection is
    /// `Closed` and the session forgotten. In any other state nothing
    /// changes.
    pub fn closed(&mut self)
        ensures
            final(self)@.config == old(self)@.config,
            old(self)@.state == ConnState::Closing ==> final(self)@.state == ConnState::Closed
                && final(self)@.game_id is None,
            old(self)@.state != ConnState::Closing ==> final(self)@ == old(self)@,
    {
        match &self.phase {
            Phase::Closing(_) => {
                self.phase = Phase::Closed;
            },
            _ => {},
        }
    }
}

} // verus!
