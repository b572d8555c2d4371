//! Core of a peer-to-peer finality-proof request/response protocol.
//!
//! A node asks a remote peer for a finality proof of a given block and
//! answers such requests from its own local knowledge.  This crate owns
//! the wire-message schema and its length framing, the inbound and
//! outbound substream upgrade logic, request/response correlation, and
//! the orchestrating behaviour that delivers responses to its caller
//! without blocking the shared event loop.
//!
//! The crate is transport-free: every function here is a pure step from
//! values to values.  A driver performs the actual substream reads and
//! writes, feeds the bytes it read into the upgrade functions, hands
//! their results to [`behaviour::FinalityProofRequests`], and performs
//! the writes that the behaviour schedules.

pub mod behaviour;
pub mod bytes;
pub mod config;
pub mod framing;
pub mod protocol;
pub mod schema;
pub mod testing;
pub mod types;
pub mod varint;
