//! Cancelling a request in flight, and what that means for its two stream directions.

pub mod body_laws;
pub mod bytes_stream;
pub mod flight_laws;
pub mod h3_body;
pub mod legacy;
pub mod legacy_laws;
pub mod pending;
pub mod pending_laws;
pub mod state;
pub mod state_laws;
