//! Reply-correlation and broadcast-dispatch engine with a JSON wire protocol.
//!
//! The library holds the verified core: the correlation key encoding, the
//! correlation store with its claim race, the per-recipient dispatch rules,
//! the request builder over a JSON tree, and the wire encoders and decoders.
//! Asynchronous transports (the chat gateway and the TCP server and client)
//! drive these functions from outside the library.

pub mod keys;
pub mod store;
pub mod types;
pub mod json;
pub mod text;
pub mod request;
pub mod response;
pub mod dispatch;
pub mod server;
pub mod client;
