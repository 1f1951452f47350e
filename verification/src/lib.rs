//! A transport-agnostic relay: each endpoint is described by a URL whose
//! scheme selects a transport, and bytes are copied in both directions
//! between the two endpoints until one side closes or errors.
//!
//! This crate holds the relay's decision logic: URL-driven connector
//! dispatch, per-transport configuration parsing and validation, the
//! netmask derivation for virtual interfaces, the message-to-stream
//! adapter rules, and the run-mode orchestration, all with verified
//! contracts. The surrounding I/O (sockets, handshakes, the event loop)
//! lives outside the library.

pub mod dispatch;
pub mod endpoint;
pub mod errors;
pub mod lexical;
pub mod netmask;
pub mod orchestrator;
pub mod query;
pub mod quic;
pub mod relay;
pub mod stdio;
pub mod tcp;
pub mod tundev;
pub mod websocket;
pub mod wrapper;
