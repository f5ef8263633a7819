//! The error taxonomy of the connection core.

use vstd::prelude::*;
use crate::packet::PacketKind;

verus! {

/// Why an operation on the connection failed.
#[derive(Debug, Clone, PartialEq, Eq)]
pub enum Error {
    /// An inbound packet kind that the server never accepts mid-session;
    /// carries the offending kind.
    ProtocolViolation(PacketKind),
    /// The underlying channel failed while writing or closing; carries the
    /// transport's own description of the failure.
    Transport(String),
    /// The application handler reported a failure; carries its description,
    /// propagated unchanged.
    Handler(String),
}

} // verus!
