//! The client half of the RPC transport: which calls are outstanding, which
//! incoming envelope answers which call, and what a reply means for each
//! typed call. Reading and writing the stream, and waiting, belong to the
//! caller, which hands each decoded envelope and each expired deadline here.

use vstd::prelude::*;
use crate::message::{Envelope, MessageId, WireError, WireMessage};
use crate::model::{BatchUploadResponse, HelloResponse};
use crate::frame::FrameError;

verus! {

/// How long a call waits for its reply unless configured otherwise.
pub const DEFAULT_TIMEOUT_MS: u64 = 5000;

/// Why the transport could not complete a call.
#[derive(Clone, Copy, Debug, PartialEq, Eq, Structural)]
pub enum RpcError {
    /// No matching reply arrived in time; the call is abandoned.
    Timeout,
    /// The connection ended before the reply arrived.
    Closed,
    /// A frame could not be taken apart.
    Frame(FrameError),
    /// A frame's payload is not an envelope.
    Malformed,
    /// The fresh id of a new call is already waiting for a reply.
    IdInUse,
}

/// Why a typed call failed.
#[derive(Clone, Debug, PartialEq, Eq)]
pub enum ClientError {
    Rpc(RpcError),
    /// The reply was of a kind this call does not expect.
    UnexpectedResponse,
    /// The peer answered with an error payload.
    ErrorResponse(WireError),
}

/// The request envelope for a call with id `msg_id`.
pub open spec fn request_of(msg_id: MessageId, payload: WireMessage) -> Envelope {
    Envelope { msg_id, reply_to: None, payload }
}

/// What a reply to a ping means.
pub open spec fn ping_outcome(payload: WireMessage) -> Result<(), ClientError> {
    match payload {
        WireMessage::Pong => Ok(()),
        WireMessage::Error(e) => Err(ClientError::ErrorResponse(e)),
        _ => Err(ClientError::UnexpectedResponse),
    }
}

/// What a reply to a hello means.
pub open spec fn hello_outcome(payload: WireMessage) -> Result<HelloResponse, ClientError> {
    match payload {
        WireMessage::HelloResponse(r) => Ok(r),
        WireMessage::Error(e) => Err(ClientError::ErrorResponse(e)),
        _ => Err(ClientError::UnexpectedResponse),
    }
}

/// What a reply to a batch upload means.
pub open spec fn batch_upload_outcome(payload: WireMessage) -> Result<
    BatchUploadResponse,
    ClientError,
> {
    match payload {
        WireMessage::BatchUploadResponse(r) => Ok(r),
        WireMessage::Error(e) => Err(ClientError::ErrorResponse(e)),
        _ => Err(ClientError::UnexpectedResponse),
    }
}

/// The result of a ping, from its reply.
pub fn ping_result(reply: Envelope) -> (r: Result<(), ClientError>)
    ensures
        r == ping_outcome(reply.payload),
{
    match reply.payload {
        WireMessage::Pong => Ok(()),
        WireMessage::Error(e) => Err(ClientError::ErrorResponse(e)),
        _ => Err(ClientError::UnexpectedResponse),
    }
}

/// The result of a hello, from its reply.
pub fn hello_result(reply: Envelope) -> (r: Result<HelloResponse, ClientError>)
    ensures
        r == hello_outcome(reply.payload),
{
    match reply.payload {
        WireMessage::HelloResponse(resp) => Ok(resp),
        WireMessage::Error(e) => Err(ClientError::ErrorResponse(e)),
        _ => Err(ClientError::UnexpectedResponse),
    }
}

/// The result of a batch upload, from its reply.
pub fn batch_upload_result(reply: Envelope) -> (r: Result<BatchUploadResponse, ClientError>)
    ensures
        r == batch_upload_outcome(reply.payload),
{
    match reply.payload {
        WireMessage::BatchUploadResponse(resp) => Ok(resp),
        WireMessage::Error(e) => Err(ClientError::ErrorResponse(e)),
        _ => Err(ClientError::UnexpectedResponse),
    }
}

/// The client state: the per-call timeout and the ids of the calls still
/// waiting for a reply.
pub struct Client {
    timeout_ms: u64,
    outstanding: Vec<u128>,
}

impl Client {
    /// The ids of the calls waiting for a reply.
    pub closed spec fn waiting(&self) -> Seq<u128> {
        self.outstanding@
    }

    pub closed spec fn spec_timeout_ms(&self) -> u64 {
        self.timeout_ms
    }

    /// No call is waiting twice.
    pub closed spec fn wf(&self) -> bool {
        self.outstanding@.no_duplicates()
    }

    /// A client with the default timeout and no outstanding call.
    pub fn new() -> (c: Client)
        ensures
            c.wf(),
            c.waiting() == Seq::<u128>::empty(),
            c.spec_timeout_ms() == DEFAULT_TIMEOUT_MS,
    {
        let c = Client { timeout_ms: DEFAULT_TIMEOUT_MS, outstanding: Vec::new() };
        assert(c.outstanding@ =~= Seq::<u128>::empty());
        c
    }

    /// The same client with another per-call timeout.
    pub fn with_timeout(self, timeout_ms: u64) -> (c: Client)
        ensures
            c.spec_timeout_ms() == timeout_ms,
            c.waiting() == self.waiting(),
            c.wf() == self.wf(),
    {
        Client { timeout_ms, outstanding: self.outstanding }
    }

    /// The per-call timeout, in milliseconds.
    pub fn timeout_ms(&self) -> (r: u64)
        ensures
            r == self.spec_timeout_ms(),
    {
        self.timeout_ms
    }

    /// Whether a call with id `id` is waiting.
    fn position(&self, id: u128) -> (r: Option<usize>)
        ensures
            r matches Some(i) ==> i < self.waiting().len() && self.waiting()[i as int] == id,
            r is None ==> !self.waiting().contains(id),
    {
        let mut i: usize = 0;
        while i < self.outstanding.len()
            invariant
                i <= self.outstanding@.len(),
                forall|j: int| 0 <= j < i ==> self.outstanding@[j] != id,
            decreases self.outstanding.len() - i,
        {
            if self.outstanding[i] == id {
                return Some(i);
            }
            i = i + 1;
        }
        None
    }

    /// Starts a call with id `msg_id`: the call now waits for its reply, and
    /// the result is the request envelope to send. Fails, changing nothing,
    /// when a call with that id is already waiting.
    pub fn begin_call_with_id(&mut self, msg_id: MessageId, payload: WireMessage) -> (r: Option<
        Envelope,
    >)
        requires
            old(self).wf(),
        ensures
            final(self).wf(),
            final(self).spec_timeout_ms() == old(self).spec_timeout_ms(),
            old(self).waiting().contains(msg_id.0) <==> r is None,
            r is None ==> final(self).waiting() == old(self).waiting(),
            r matches Some(env) ==> env == request_of(msg_id, payload) && final(self).waiting()
                == old(self).waiting().push(msg_id.0),
    {
        if self.position(msg_id.0).is_some() {
            return None;
        }
        self.outstanding.push(msg_id.0);
        Some(Envelope { msg_id, reply_to: None, payload })
    }

    /// Starts a call with a fresh id. It succeeds whenever no call is
    /// waiting; otherwise it is `None` in the unlikely case that the fresh id
    /// is already waiting.
    pub fn begin_call(&mut self, payload: WireMessage) -> (r: Option<Envelope>)
        requires
            old(self).wf(),
        ensures
            final(self).wf(),
            final(self).spec_timeout_ms() == old(self).spec_timeout_ms(),
            old(self).waiting().len() == 0 ==> r is Some,
            r is None ==> final(self).waiting() == old(self).waiting(),
            r matches Some(env) ==> env == request_of(env.msg_id, payload) && !old(
                self,
            ).waiting().contains(env.msg_id.0) && final(self).waiting() == old(
                self,
            ).waiting().push(env.msg_id.0),
    {
        let id = MessageId::new();
        self.begin_call_with_id(id, payload)
    }

    /// Stops waiting for the call at position `i`.
    fn forget(&mut self, i: usize)
        requires
            old(self).wf(),
            i < old(self).waiting().len(),
        ensures
            final(self).wf(),
            final(self).spec_timeout_ms() == old(self).spec_timeout_ms(),
            forall|y: u128|
                final(self).waiting().contains(y) <==> (old(self).waiting().contains(y) && y != old(
                    self,
                ).waiting()[i as int]),
    {
        let ghost before = self.outstanding@;
        let _ = self.outstanding.remove(i);
        assert(self.outstanding@ =~= before.remove(i as int));
        assert forall|y: u128|
            self.outstanding@.contains(y) <==> (before.contains(y) && y != before[i as int]) by {
            if before.contains(y) && y != before[i as int] {
                let k = choose|k: int| 0 <= k < before.len() && before[k] == y;
                if k < i {
                    assert(self.outstanding@[k] == y);
                } else {
                    assert(self.outstanding@[k - 1] == y);
                }
            }
        }
    }

    /// Hands an incoming envelope to the client. When it answers a waiting
    /// call, that call stops waiting and its id is returned; any other
    /// envelope (a request, a stray or late reply) changes nothing.
    pub fn receive(&mut self, env: &Envelope) -> (r: Option<MessageId>)
        requires
            old(self).wf(),
        ensures
            final(self).wf(),
            final(self).spec_timeout_ms() == old(self).spec_timeout_ms(),
            r == (match env.reply_to {
                Some(id) => if old(self).waiting().contains(id.0) {
                    Some(id)
                } else {
                    None
                },
                None => None,
            }),
            r is None ==> final(self).waiting() == old(self).waiting(),
            r matches Some(id) ==> forall|y: u128|
                final(self).waiting().contains(y) <==> (old(self).waiting().contains(y) && y
                    != id.0),
    {
        match env.reply_to {
            Some(id) => match self.position(id.0) {
                Some(i) => {
                    self.forget(i);
                    Some(id)
                },
                None => None,
            },
            None => None,
        }
    }

    /// The call `id` ran out of time: it stops waiting, so a reply that
    /// arrives later is ignored, and the call fails with a timeout.
    pub fn expire(&mut self, id: MessageId) -> (r: ClientError)
        requires
            old(self).wf(),
        ensures
            final(self).wf(),
            final(self).spec_timeout_ms() == old(self).spec_timeout_ms(),
            r == ClientError::Rpc(RpcError::Timeout),
            forall|y: u128|
                final(self).waiting().contains(y) <==> (old(self).waiting().contains(y) && y
                    != id.0),
    {
        match self.position(id.0) {
            Some(i) => self.forget(i),
            None => {},
        }
        ClientError::Rpc(RpcError::Timeout)
    }
}

} // verus!
