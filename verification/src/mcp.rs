//! The protocol broker: JSON-RPC 2.0 messages, line framing, the retry
//! policy and the client state machine.

pub mod client;
pub mod protocol;
pub mod retry;
pub mod transport;
pub mod wire;
