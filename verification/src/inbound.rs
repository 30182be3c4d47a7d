//! What the receive loop makes of one binary message from the socket.

use crate::error::BilibiliError;
use crate::error::ErrorKind;
use crate::event::dispatch;
use crate::event::dispatched;
use crate::event::Dispatch;
use crate::event::Dispatched;
use crate::json::json_parsed;
use crate::json::parse_json;
use crate::json::Json;
use crate::proto::body_text;
use crate::proto::error_text;
use crate::proto::unpacked;
use crate::proto::Frame;
use crate::proto::Proto;
use crate::proto::ProtoError;
use crate::proto::MAX_NESTING;
use crate::proto::OP_AUTH_REPLY;
use crate::proto::OP_HEARTBEAT_REPLY;
use crate::proto::OP_MESSAGE;
use crate::session::code_of;
use crate::session::response_code;
use vstd::prelude::*;

verus! {

/// One frame as the receive loop understands it.
#[derive(Debug)]
pub enum Inbound {
    /// The server acknowledged a heartbeat. Nothing is to be done.
    HeartbeatReply,
    /// The server answered the authentication; `accepted` tells whether its
    /// status code is 0. A refusal is reported and the connection is left as
    /// it is.
    AuthReply { body: String, accepted: bool },
    /// A business message, with what the dispatcher made of its body.
    Message { body: String, dispatch: Dispatch },
    /// A frame with another opcode, with its body as text where it has one
    /// that decodes.
    Other { op: u32, body: Option<String> },
}

/// The mathematical content of an `Inbound`.
pub enum InboundView {
    HeartbeatReply,
    AuthReply { body: Seq<char>, accepted: bool },
    Message { body: Seq<char>, dispatch: Dispatched },
    Other { op: int, body: Option<Seq<char>> },
}

impl View for Inbound {
    type V = InboundView;

    open spec fn view(&self) -> InboundView {
        match *self {
            Inbound::HeartbeatReply => InboundView::HeartbeatReply,
            Inbound::AuthReply { body, accepted } => InboundView::AuthReply {
                body: body@,
                accepted,
            },
            Inbound::Message { body, dispatch } => InboundView::Message {
                body: body@,
                dispatch: dispatch@,
            },
            Inbound::Other { op, body } => InboundView::Other {
                op: op as int,
                body: match body {
                    Some(s) => Some(s@),
                    None => None,
                },
            },
        }
    }
}

/// Whether a response reports success: its status code is 0.
pub open spec fn accepts(json: Json) -> bool {
    code_of(json) == Some(0i64)
}

/// What an authentication reply with the given body text is: an error where
/// the body does not decode or is not JSON.
pub open spec fn auth_reply_of(text: Result<Seq<char>, ProtoError>) -> Result<
    InboundView,
    ErrorKind,
> {
    match text {
        Err(e) => Err(ErrorKind::Protocol(e)),
        Ok(body) => match json_parsed(body) {
            None => Err(ErrorKind::Json),
            Some(json) => Ok(InboundView::AuthReply { body, accepted: accepts(json) }),
        },
    }
}

/// What a business message with the given body text is; a body that is not
/// JSON is no error, only a message that is dropped.
pub open spec fn message_of(text: Result<Seq<char>, ProtoError>) -> Result<
    InboundView,
    ErrorKind,
> {
    match text {
        Err(e) => Err(ErrorKind::Protocol(e)),
        Ok(body) => Ok(InboundView::Message { body, dispatch: dispatched(json_parsed(body)) }),
    }
}

/// What a frame with any other opcode is: its body is shown where it is
/// not empty and decodes.
pub open spec fn other_of(frame: Frame, text: Result<Seq<char>, ProtoError>) -> InboundView {
    InboundView::Other {
        op: frame.op,
        body: if frame.body.len() > 0 {
            match text {
                Ok(body) => Some(body),
                Err(_) => None,
            }
        } else {
            None
        },
    }
}

/// What a frame is, by its opcode.
pub open spec fn inbound_of_frame(frame: Frame) -> Result<InboundView, ErrorKind> {
    let text = body_text(frame.ver, frame.body, MAX_NESTING as nat);
    if frame.op == OP_HEARTBEAT_REPLY {
        Ok(InboundView::HeartbeatReply)
    } else if frame.op == OP_AUTH_REPLY {
        auth_reply_of(text)
    } else if frame.op == OP_MESSAGE {
        message_of(text)
    } else {
        Ok(other_of(frame, text))
    }
}

/// What the bytes of one binary message are: a frame error where they do
/// not hold a frame, else what the frame is.
pub open spec fn inbound_of(data: Seq<u8>) -> Result<InboundView, ErrorKind> {
    match unpacked(data) {
        Err(e) => Err(ErrorKind::Protocol(e)),
        Ok(frame) => inbound_of_frame(frame),
    }
}

/// Whether `r` reports `expected`: the same frame, or an error of the same
/// kind. A frame error carries that error's message.
pub open spec fn inbound_is(
    r: Result<Inbound, BilibiliError>,
    expected: Result<InboundView, ErrorKind>,
) -> bool {
    match expected {
        Ok(v) => r matches Ok(i) && i@ == v,
        Err(kind) => {
            &&& r matches Err(e)
            &&& e.kind == kind
            &&& kind matches ErrorKind::Protocol(p) ==> e.message@ == error_text(p)
        },
    }
}

/// Classifies a frame that has been read.
pub fn handle_frame(frame: &Proto) -> (r: Result<Inbound, BilibiliError>)
    ensures
        inbound_is(r, inbound_of_frame(frame@)),
{
    if frame.op == OP_HEARTBEAT_REPLY {
        Ok(Inbound::HeartbeatReply)
    } else if frame.op == OP_AUTH_REPLY {
        let body = match frame.get_body_string() {
            Ok(body) => body,
            Err(e) => {
                return Err(BilibiliError::protocol(e));
            },
        };
        match parse_json(body.as_str()) {
            Some(json) => {
                let accepted = match response_code(&json) {
                    Some(0) => true,
                    _ => false,
                };
                Ok(Inbound::AuthReply { body, accepted })
            },
            None => Err(BilibiliError::with_text(ErrorKind::Json, "auth reply is not JSON")),
        }
    } else if frame.op == OP_MESSAGE {
        let body = match frame.get_body_string() {
            Ok(body) => body,
            Err(e) => {
                return Err(BilibiliError::protocol(e));
            },
        };
        let outcome = dispatch(parse_json(body.as_str()));
        Ok(Inbound::Message { body, dispatch: outcome })
    } else {
        let body = if frame.body.len() > 0 {
            match frame.get_body_string() {
                Ok(body) => Some(body),
                Err(_) => None,
            }
        } else {
            None
        };
        Ok(Inbound::Other { op: frame.op, body })
    }
}

/// Reads one binary message from the socket and classifies it.
pub fn handle_message(data: &[u8]) -> (r: Result<Inbound, BilibiliError>)
    ensures
        inbound_is(r, inbound_of(data@)),
{
    let mut frame = Proto::new();
    match frame.unpack(data) {
        Ok(()) => handle_frame(&frame),
        Err(e) => Err(BilibiliError::protocol(e)),
    }
}

} // verus!
