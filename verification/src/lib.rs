//! Client core for a live-streaming push service: binary frame codec, request
//! signing, session bootstrap messages, connection supervision and typed
//! event decoding.

pub mod client;
pub mod decode;
pub mod error;
pub mod event;
pub mod inbound;
pub mod json;
pub mod message;
pub mod proto;
pub mod session;
pub mod sign;
pub mod tasks;
