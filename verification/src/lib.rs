//! HTTP/3 over iroh peer-to-peer connections: the decisions that drive a connection, its streams
//! and a cancellable client request, stated as contracts and proved.
//!
//! Nothing here waits. Each operation that needs the network is a small machine: it says what to
//! do next, and takes back what came of it.

pub mod bidi_stream;
pub mod body;
pub mod buffer;
pub mod cancel;
pub mod codes;
pub mod connection;
pub mod error;
pub mod recv_stream;
pub mod send_stream;
pub mod smart_timeout;
pub mod stream_error;
