//! The server half of the RPC transport: which registered handler an
//! incoming envelope goes to, and the envelopes written back. Handlers run
//! outside; the server loop asks `dispatch` what to do with each request and
//! wraps each handler's answer with `reply`.

use vstd::prelude::*;
use crate::message::{Envelope, MessageId, WireError, WireErrorCode, WireMessage};

verus! {

/// The request kinds a handler can be registered for.
#[derive(Clone, Copy, Debug, PartialEq, Eq, Structural)]
pub enum RequestKind {
    Ping,
    Hello,
    BatchUpload,
}

/// Which request kinds have a registered handler.
#[derive(Clone, Copy, Debug, PartialEq, Eq, Structural)]
pub struct Routes {
    pub ping: bool,
    pub hello: bool,
    pub batch_upload: bool,
}

impl Routes {
    pub open spec fn spec_handles(self, kind: RequestKind) -> bool {
        match kind {
            RequestKind::Ping => self.ping,
            RequestKind::Hello => self.hello,
            RequestKind::BatchUpload => self.batch_upload,
        }
    }

    /// No handler registered.
    pub fn new() -> (r: Routes)
        ensures
            r == (Routes { ping: false, hello: false, batch_upload: false }),
    {
        Routes { ping: false, hello: false, batch_upload: false }
    }

    /// Registers a ping handler.
    pub fn on_ping(self) -> (r: Routes)
        ensures
            r == (Routes { ping: true, ..self }),
    {
        Routes { ping: true, ..self }
    }

    /// Registers a hello handler.
    pub fn on_hello(self) -> (r: Routes)
        ensures
            r == (Routes { hello: true, ..self }),
    {
        Routes { hello: true, ..self }
    }

    /// Registers a batch upload handler.
    pub fn on_batch_upload(self) -> (r: Routes)
        ensures
            r == (Routes { batch_upload: true, ..self }),
    {
        Routes { batch_upload: true, ..self }
    }

    /// Whether a handler is registered for `kind`.
    pub fn handles(&self, kind: RequestKind) -> (r: bool)
        ensures
            r == self.spec_handles(kind),
    {
        match kind {
            RequestKind::Ping => self.ping,
            RequestKind::Hello => self.hello,
            RequestKind::BatchUpload => self.batch_upload,
        }
    }
}

/// The request kind a payload asks for, if it is a request at all.
pub open spec fn request_kind(payload: WireMessage) -> Option<RequestKind> {
    match payload {
        WireMessage::Ping => Some(RequestKind::Ping),
        WireMessage::HelloRequest(_) => Some(RequestKind::Hello),
        WireMessage::BatchUploadRequest(_) => Some(RequestKind::BatchUpload),
        _ => None,
    }
}

/// What the server does with an incoming envelope.
#[derive(Clone, Copy, Debug, PartialEq, Eq, Structural)]
pub enum Dispatch {
    /// Hand the request to the handler registered for this kind.
    Handle(RequestKind),
    /// Answer at once with an error of this code; the connection stays open.
    Refuse(WireErrorCode),
}

/// The decision for an envelope: a reply or a non-request payload is a bad
/// request; a request with no registered handler is unsupported; any other
/// request goes to its handler.
pub open spec fn dispatch_of(routes: Routes, env: Envelope) -> Dispatch {
    if env.reply_to is Some {
        Dispatch::Refuse(WireErrorCode::BadRequest)
    } else {
        match request_kind(env.payload) {
            None => Dispatch::Refuse(WireErrorCode::BadRequest),
            Some(kind) => if routes.spec_handles(kind) {
                Dispatch::Handle(kind)
            } else {
                Dispatch::Refuse(WireErrorCode::Unsupported)
            },
        }
    }
}

/// Decides what to do with an incoming envelope.
pub fn dispatch(routes: &Routes, env: &Envelope) -> (r: Dispatch)
    ensures
        r == dispatch_of(*routes, *env),
{
    if env.reply_to.is_some() {
        return Dispatch::Refuse(WireErrorCode::BadRequest);
    }
    let kind = match &env.payload {
        WireMessage::Ping => RequestKind::Ping,
        WireMessage::HelloRequest(_) => RequestKind::Hello,
        WireMessage::BatchUploadRequest(_) => RequestKind::BatchUpload,
        _ => {
            return Dispatch::Refuse(WireErrorCode::BadRequest);
        },
    };
    if routes.handles(kind) {
        Dispatch::Handle(kind)
    } else {
        Dispatch::Refuse(WireErrorCode::Unsupported)
    }
}

/// The reply to `request`, carrying `payload`, under the fresh id `msg_id`.
pub fn reply(request: &Envelope, msg_id: MessageId, payload: WireMessage) -> (r: Envelope)
    ensures
        r.msg_id == msg_id,
        r.reply_to == Some(request.msg_id),
        r.payload == payload,
{
    Envelope { msg_id, reply_to: Some(request.msg_id), payload }
}

/// The error reply of code `code` to `request`.
pub fn refusal(request: &Envelope, msg_id: MessageId, code: WireErrorCode) -> (r: Envelope)
    ensures
        r.msg_id == msg_id,
        r.reply_to == Some(request.msg_id),
        r.payload matches WireMessage::Error(e) && e.code == code,
{
    let message = match code {
        WireErrorCode::BadRequest => "not a request".to_string(),
        WireErrorCode::Unsupported => "no handler for this message kind".to_string(),
        WireErrorCode::Internal => "internal error".to_string(),
    };
    reply(request, msg_id, WireMessage::Error(WireError { code, message }))
}

/// The answer to a frame whose payload is not an envelope: a bad-request
/// error that answers no request, since the request's id is unknown.
pub fn malformed_notice(msg_id: MessageId) -> (r: Envelope)
    ensures
        r.msg_id == msg_id,
        r.reply_to is None,
        r.payload matches WireMessage::Error(e) && e.code == WireErrorCode::BadRequest,
{
    let message = "malformed request".to_string();
    Envelope {
        msg_id,
        reply_to: None,
        payload: WireMessage::Error(WireError { code: WireErrorCode::BadRequest, message }),
    }
}

} // verus!
