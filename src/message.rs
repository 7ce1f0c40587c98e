//! The wire unit: an envelope with a correlation id, an optional id of the
//! request it answers, and a typed payload.

use vstd::prelude::*;
use crate::model::{
    BatchUploadRequest, BatchUploadResponse, HelloRequest, HelloResponse,
};

verus! {

/// Relies on `ulid::Ulid::new`: a fresh identifier made from the clock and
/// random bits. Nothing is promised of the value.
#[verifier::external_body]
pub(crate) fn fresh_ulid() -> u128 {
    ulid::Ulid::new().0
}

/// Identifies one envelope.
#[derive(Clone, Copy, Debug, PartialEq, Eq, Structural, Hash)]
pub struct MessageId(pub u128);

impl MessageId {
    /// A fresh id.
    pub fn new() -> (r: MessageId) {
        MessageId(fresh_ulid())
    }
}

#[derive(Clone, Copy, Debug, PartialEq, Eq, Structural)]
pub enum WireErrorCode {
    BadRequest,
    Unsupported,
    Internal,
}

#[derive(Clone, Debug, PartialEq, Eq)]
pub struct WireError {
    pub code: WireErrorCode,
    pub message: String,
}

/// The payload kinds of the protocol.
#[derive(Clone, Debug)]
pub enum WireMessage {
    Ping,
    Pong,
    HelloRequest(HelloRequest),
    HelloResponse(HelloResponse),
    BatchUploadRequest(BatchUploadRequest),
    BatchUploadResponse(BatchUploadResponse),
    Error(WireError),
}

/// One message on the wire. `reply_to` is absent on requests and names the
/// request's `msg_id` on replies.
#[derive(Clone, Debug)]
pub struct Envelope {
    pub msg_id: MessageId,
    pub reply_to: Option<MessageId>,
    pub payload: WireMessage,
}

} // verus!
