//! Per-connection transport core of a real-time messaging protocol.
//!
//! A [`socket::Socket`] presents one logical, ordered packet stream over
//! either a chunked HTTP long-polling channel or a WebSocket channel, and
//! supports a one-way, in-place upgrade from the former to the latter.
//! The core decides what each operation writes and how the connection
//! state changes; the surrounding runtime performs the actual I/O.

pub mod errors;
pub mod heartbeat;
pub mod packet;
pub mod socket;
