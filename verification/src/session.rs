//! Session bootstrap: the three signed REST calls that start a session,
//! keep it alive and end it. This module builds each request and reads each
//! response; sending is left to the caller.

use crate::decode::get_int;
use crate::decode::get_object;
use crate::decode::get_str;
use crate::decode::int_field;
use crate::decode::object_field;
use crate::decode::str_field;
use crate::error::BilibiliError;
use crate::error::ErrorKind;
use crate::json::get_member;
use crate::json::json_parsed;
use crate::json::json_quoted;
use crate::json::member;
use crate::json::parse_json;
use crate::json::quote_json;
use crate::json::Json;
use crate::sign::decimal;
use crate::sign::decimal_string;
use crate::sign::freshly_signed;
use crate::sign::sign_static;
use crate::sign::BilibiliConfig;
use crate::sign::Header;
use vstd::prelude::*;
use vstd::string::StringExecFns;

verus! {

/// A POST request ready to be sent.
#[derive(Debug, Clone)]
pub struct SignedRequest {
    pub url: String,
    pub headers: Vec<Header>,
    pub body: String,
}

/// What a successful session start hands back.
#[derive(Debug, Clone)]
pub struct SessionInfo {
    /// The handle that every later call for this session names.
    pub game_id: String,
    /// The WebSocket endpoint to connect to.
    pub ws_url: String,
    /// The body of the authentication frame.
    pub auth_body: String,
}

/// The address of an endpoint: the host followed by the path.
pub open spec fn endpoint(host: Seq<char>, path: Seq<char>) -> Seq<char> {
    host + path
}

/// The body of the start call: the code, then the application.
pub open spec fn start_body(code: Seq<char>, app_id: u64) -> Seq<char> {
    "{\"code\":"@ + json_quoted(code) + ",\"app_id\":"@ + decimal(app_id as nat) + "}"@
}

/// The body of the heartbeat call.
pub open spec fn heartbeat_body(game_id: Seq<char>) -> Seq<char> {
    "{\"game_id\":"@ + json_quoted(game_id) + "}"@
}

/// The body of the end call: the session, then the application.
pub open spec fn end_body(game_id: Seq<char>, app_id: u64) -> Seq<char> {
    "{\"game_id\":"@ + json_quoted(game_id) + ",\"app_id\":"@ + decimal(app_id as nat) + "}"@
}

fn quoted(text: &str) -> (s: String)
    ensures
        s@ == json_quoted(text@),
{
    quote_json(text).unwrap()
}

/// Builds the body of the start call.
pub fn start_request_body(code: &str, app_id: u64) -> (body: String)
    ensures
        body@ == start_body(code@, app_id),
{
    let mut body = "{\"code\":".to_owned();
    body.append(quoted(code).as_str());
    body.append(",\"app_id\":");
    body.append(decimal_string(app_id).as_str());
    body.append("}");
    body
}

/// Builds the body of the heartbeat call.
pub fn heartbeat_request_body(game_id: &str) -> (body: String)
    ensures
        body@ == heartbeat_body(game_id@),
{
    let mut body = "{\"game_id\":".to_owned();
    body.append(quoted(game_id).as_str());
    body.append("}");
    body
}

/// Builds the body of the end call.
pub fn end_request_body(game_id: &str, app_id: u64) -> (body: String)
    ensures
        body@ == end_body(game_id@, app_id),
{
    let mut body = "{\"game_id\":".to_owned();
    body.append(quoted(game_id).as_str());
    body.append(",\"app_id\":");
    body.append(decimal_string(app_id).as_str());
    body.append("}");
    body
}

/// Whether `r` is a freshly signed POST of `body` to `path` on the
/// configured host, or the error that signing gave.
pub open spec fn request_is(
    r: Result<SignedRequest, BilibiliError>,
    config: BilibiliConfig,
    path: Seq<char>,
    body: Seq<char>,
) -> bool {
    match r {
        Ok(req) => {
            &&& req.url@ == endpoint(config.host@, path)
            &&& req.body@ == body
            &&& freshly_signed(Ok(req.headers), config.access_key@, config.access_secret@, body)
        },
        Err(e) => freshly_signed(Err(e), config.access_key@, config.access_secret@, body),
    }
}

fn signed_post(config: &BilibiliConfig, path: &str, body: String) -> (r: Result<
    SignedRequest,
    BilibiliError,
>)
    ensures
        request_is(r, *config, path@, body@),
{
    let mut url = config.host.clone();
    url.append(path);
    match sign_static(config, body.as_str()) {
        Ok(headers) => Ok(SignedRequest { url, headers, body }),
        Err(e) => Err(e),
    }
}

/// The signed request that starts a session.
pub fn start_request(config: &BilibiliConfig) -> (r: Result<SignedRequest, BilibiliError>)
    ensures
        request_is(r, *config, "/v2/app/start"@, start_body(config.id_code@, config.app_id)),
{
    let body = start_request_body(config.id_code.as_str(), config.app_id);
    signed_post(config, "/v2/app/start", body)
}

/// The signed request that keeps the session `game_id` alive.
pub fn heartbeat_request(config: &BilibiliConfig, game_id: &str) -> (r: Result<
    SignedRequest,
    BilibiliError,
>)
    ensures
        request_is(r, *config, "/v2/app/heartbeat"@, heartbeat_body(game_id@)),
{
    let body = heartbeat_request_body(game_id);
    signed_post(config, "/v2/app/heartbeat", body)
}

/// The signed request that ends the session `game_id`.
pub fn end_request(config: &BilibiliConfig, game_id: &str) -> (r: Result<
    SignedRequest,
    BilibiliError,
>)
    ensures
        request_is(r, *config, "/v2/app/end"@, end_body(game_id@, config.app_id)),
{
    let body = end_request_body(game_id, config.app_id);
    signed_post(config, "/v2/app/end", body)
}

/// The status code of a response: the integer member `code` of an object.
pub open spec fn code_of(json: Json) -> Option<i64> {
    match json {
        Json::Object(m) => int_field(m@, "code"@),
        _ => None,
    }
}

/// Reads the status code of a response.
pub fn response_code(json: &Json) -> (r: Option<i64>)
    ensures
        r == code_of(*json),
{
    match json {
        Json::Object(m) => get_int(m, "code"),
        _ => None,
    }
}

/// The first endpoint of a list, where the list is not empty and holds
/// strings only.
pub open spec fn first_link(items: Seq<Json>) -> Option<String> {
    if items.len() > 0 && (forall|i: int|
        0 <= i < items.len() ==> (#[trigger] items[i]) is String) {
        Some(items[0]->String_0)
    } else {
        None
    }
}

/// Reads the first endpoint of a list.
pub fn first_of_links(items: &Vec<Json>) -> (r: Option<String>)
    ensures
        r == first_link(items@),
{
    if items.len() == 0 {
        return None;
    }
    let mut i: usize = 0;
    while i < items.len()
        invariant
            i <= items@.len(),
            forall|j: int| 0 <= j < i ==> (#[trigger] items@[j]) is String,
        decreases items@.len() - i,
    {
        match &items[i] {
            Json::String(_) => {},
            _ => {
                return None;
            },
        }
        i += 1;
    }
    match &items[0] {
        Json::String(s) => Some(s.clone()),
        _ => None,
    }
}

/// The session that the `data` member of a start response describes.
pub open spec fn session_of(data: Seq<(String, Json)>) -> Option<SessionInfo> {
    let game_info = object_field(data, "game_info"@);
    let websocket_info = object_field(data, "websocket_info"@);
    if game_info is Some && websocket_info is Some {
        let game_id = str_field(game_info->0, "game_id"@);
        let auth_body = str_field(websocket_info->0, "auth_body"@);
        let ws_url = match member(websocket_info->0, "wss_link"@) {
            Some(Json::Array(items)) => first_link(items@),
            _ => None,
        };
        if game_id is Some && auth_body is Some && ws_url is Some {
            Some(SessionInfo { game_id: game_id->0, ws_url: ws_url->0, auth_body: auth_body->0 })
        } else {
            None
        }
    } else {
        None
    }
}

/// Reads the session out of the `data` member of a start response.
pub fn decode_session(data: &Vec<(String, Json)>) -> (r: Option<SessionInfo>)
    ensures
        r == session_of(data@),
{
    let game_info = get_object(data, "game_info")?;
    let websocket_info = get_object(data, "websocket_info")?;
    let game_id = get_str(game_info, "game_id")?;
    let auth_body = get_str(websocket_info, "auth_body")?;
    let ws_url = match get_member(websocket_info, "wss_link") {
        Some(Json::Array(items)) => first_of_links(items)?,
        _ => {
            return None;
        },
    };
    Some(SessionInfo { game_id, ws_url, auth_body })
}

/// Whether the member `code` reports success: `Some(true)` for the integer
/// 0, `Some(false)` for any other integer, however large, and `None` where
/// the member is absent or no integer.
pub open spec fn success_field(m: Seq<(String, Json)>) -> Option<bool> {
    match member(m, "code"@) {
        Some(Json::Number(n)) => if n.signed is Some {
            Some(n.signed == Some(0i64))
        } else if n.unsigned is Some {
            Some(false)
        } else {
            None
        },
        _ => None,
    }
}

/// Reads whether the member `code` reports success.
pub fn get_success(m: &Vec<(String, Json)>) -> (r: Option<bool>)
    ensures
        r == success_field(m@),
{
    match get_member(m, "code") {
        Some(Json::Number(n)) => match (n.signed, n.unsigned) {
            (Some(code), _) => Some(code == 0),
            (None, Some(_)) => Some(false),
            (None, None) => None,
        },
        _ => None,
    }
}

/// How a start response reads.
pub enum StartOutcome {
    /// The text is not JSON.
    NotJson,
    /// The response lacks its code or message, or reports success without
    /// a well-formed session.
    Malformed,
    /// The platform refused, with this message.
    Rejected(String),
    /// The session was started.
    Started(SessionInfo),
}

/// How a start response reads, given what its text parsed to. The status
/// code is looked at before the session data: every integer code other
/// than 0 is a refusal, whatever else the response holds.
pub open spec fn start_outcome(parsed: Option<Json>) -> StartOutcome {
    match parsed {
        None => StartOutcome::NotJson,
        Some(Json::Object(m)) => {
            let success = success_field(m@);
            let message = str_field(m@, "message"@);
            if !(success is Some && message is Some) {
                StartOutcome::Malformed
            } else if !success->0 {
                StartOutcome::Rejected(message->0)
            } else {
                match object_field(m@, "data"@) {
                    Some(data) => match session_of(data) {
                        Some(info) => StartOutcome::Started(info),
                        None => StartOutcome::Malformed,
                    },
                    None => StartOutcome::Malformed,
                }
            }
        },
        Some(_) => StartOutcome::Malformed,
    }
}

/// Whether `r` reports the outcome `o`: the session, or an error of the
/// kind that the outcome calls for. A refusal carries the platform's
/// message behind a fixed prefix.
pub open spec fn start_result_is(r: Result<SessionInfo, BilibiliError>, o: StartOutcome) -> bool {
    match o {
        StartOutcome::NotJson => r matches Err(e) && e.kind == ErrorKind::Json,
        StartOutcome::Malformed => r matches Err(e) && e.kind == ErrorKind::MalformedResponse,
        StartOutcome::Rejected(message) => {
            &&& r matches Err(e)
            &&& e.kind == ErrorKind::SessionStartRejected
            &&& e.message@ == "获取WebSocket信息失败: "@ + message@
        },
        StartOutcome::Started(info) => r == Ok::<SessionInfo, BilibiliError>(info),
    }
}

fn malformed() -> (e: BilibiliError)
    ensures
        e.kind == ErrorKind::MalformedResponse,
{
    BilibiliError::with_text(ErrorKind::MalformedResponse, "response lacks a required field")
}

fn not_json() -> (e: BilibiliError)
    ensures
        e.kind == ErrorKind::Json,
{
    BilibiliError::with_text(ErrorKind::Json, "response is not JSON")
}

/// Reads a start response from what its text parsed to.
pub fn read_start_response(parsed: Option<Json>) -> (r: Result<SessionInfo, BilibiliError>)
    ensures
        start_result_is(r, start_outcome(parsed)),
{
    let json = match parsed {
        Some(json) => json,
        None => {
            return Err(not_json());
        },
    };
    let m = match &json {
        Json::Object(m) => m,
        _ => {
            return Err(malformed());
        },
    };
    let success = match get_success(m) {
        Some(success) => success,
        None => {
            return Err(malformed());
        },
    };
    let message = match get_str(m, "message") {
        Some(message) => message,
        None => {
            return Err(malformed());
        },
    };
    if !success {
        let mut text = "获取WebSocket信息失败: ".to_owned();
        text.append(message.as_str());
        return Err(BilibiliError::new(ErrorKind::SessionStartRejected, text));
    }
    let data = match get_object(m, "data") {
        Some(data) => data,
        None => {
            return Err(malformed());
        },
    };
    match decode_session(data) {
        Some(info) => Ok(info),
        None => Err(malformed()),
    }
}

/// Reads the text of a start response.
pub fn parse_start_response(text: &str) -> (r: Result<SessionInfo, BilibiliError>)
    ensures
        start_result_is(r, start_outcome(json_parsed(text@))),
{
    read_start_response(parse_json(text))
}

/// Whether `r` is the verdict on a heartbeat response with the given text:
/// accepted where the text is JSON with status code 0, refused otherwise,
/// the refusal carrying the whole text behind a fixed prefix.
pub open spec fn heartbeat_result_is(
    r: Result<(), BilibiliError>,
    text: Seq<char>,
    parsed: Option<Json>,
) -> bool {
    match parsed {
        None => r matches Err(e) && e.kind == ErrorKind::Json,
        Some(json) => if code_of(json) == Some(0i64) {
            r is Ok
        } else {
            &&& r matches Err(e)
            &&& e.kind == ErrorKind::HeartbeatRejected
            &&& e.message@ == "应用心跳失败: "@ + text
        },
    }
}

/// Reads a heartbeat response from its text and what the text parsed to.
pub fn read_heartbeat_response(text: &str, parsed: Option<Json>) -> (r: Result<(), BilibiliError>)
    ensures
        heartbeat_result_is(r, text@, parsed),
{
    let json = match parsed {
        Some(json) => json,
        None => {
            return Err(not_json());
        },
    };
    match response_code(&json) {
        Some(0) => Ok(()),
        _ => {
            let mut message = "应用心跳失败: ".to_owned();
            message.append(text);
            Err(BilibiliError::new(ErrorKind::HeartbeatRejected, message))
        },
    }
}

/// Reads the text of a heartbeat response.
pub fn check_heartbeat_response(text: &str) -> (r: Result<(), BilibiliError>)
    ensures
        heartbeat_result_is(r, text@, json_parsed(text@)),
{
    read_heartbeat_response(text, parse_json(text))
}

} // verus!
