//! A token-ring coordination protocol: peers queue arithmetic requests and
//! submit them to a compute server only while they hold the circulating token.
//!
//! The crate holds the protocol's decisions: the wire format, the peer's
//! reactions to inbound datagrams, and the server's evaluation of a batch.
//! Sockets, threads and clocks belong to the program that drives it.

pub mod decimal;
pub mod json;
pub mod peer;
pub mod request;
pub mod ring;
pub mod server;
pub mod text;
pub mod wire;
