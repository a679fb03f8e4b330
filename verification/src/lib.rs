//! Anonymous transaction-relay protocol core.
//!
//! A client composes a `TransactionRequest` envelope, encodes it to bytes,
//! and hands it to an anonymity-preserving transport addressed by an opaque
//! destination string. A relay service receives such byte payloads, decodes
//! them, and forwards the transaction text to the broadcast endpoint that
//! the envelope's network selects. The relay publishes its own reachable
//! address exactly once for a status surface to read.
//!
//! This crate holds the verified protocol logic: the wire format, the
//! client-side send state machine, the relay's per-message decisions, and
//! the publish-once address cell. Transport and HTTP I/O live outside it.

pub mod address;
pub mod network;
pub mod relay;
pub mod session;
pub mod wire;
