//! A client-side engine for a local file-watching daemon reachable over a
//! stream transport and speaking a self-describing binary serialization
//! protocol (BSER).
//!
//! The wire protocol carries no request identifier, so the engine keeps at
//! most one request in flight and correlates responses to requests strictly
//! by FIFO order.  Unsolicited ("unilateral") messages are recognised by
//! their shape and fanned out to the subscription they name.
//!
//! This crate holds the coordination logic itself: framing incoming bytes
//! into complete protocol messages ([`frame`]), the single-threaded
//! coordinator over the pending-request queue and the subscription registry
//! ([`task`]), building requests and interpreting responses ([`client`]),
//! and classifying subscription events ([`subscription`]).  Opening the
//! transport and pumping bytes is left to an embedding layer, which drives
//! these state machines.

pub mod client;
pub mod codec;
pub mod connector;
pub mod error;
pub mod frame;
pub mod pdu;
pub mod subscription;
pub mod task;
