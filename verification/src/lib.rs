//! The client side of an Ethereum mining proxy.
//!
//! A machine talks to a pool through the proxy. [`handle_stream`] takes a
//! session between the two through one event at a time; [`client_to_server`]
//! and [`server_to_client`] are the two halves of a plainer relay. Each says
//! what it wants done next, and whoever holds the sockets and channels does it
//! and reports back. [`laws`] states what holds of them as a whole.

pub mod client_to_server;
pub mod error;
pub mod fee;
pub mod framing;
pub mod handle_stream;
pub mod laws;
pub mod outside;
pub mod pool;
pub mod protocol;
pub mod server_to_client;
pub mod session;
pub mod string_map;
pub mod worker;
