//! Store-and-forward telemetry core: a durable record queue with a
//! pending/uploaded lifecycle, length-prefixed framing for the wire, and the
//! request/response correlation and dispatch rules of the RPC transport.

pub mod model;
pub mod queue;
pub mod storage;
pub mod lifecycle;
pub mod frame;
pub mod message;
pub mod client;
pub mod server;
pub mod sync;
pub mod edge;
pub mod registry_api;
pub mod simulate;
