//! Typed protocol packets and their text encoding.
//!
//! A `Packet` is the protocol's smallest typed unit of communication.
//! Text-bearing packets are carried on the wire as one type digit followed
//! by the payload; binary payloads never pass through this encoding.

use vstd::prelude::*;

verus! {

/// One decoded protocol packet.
#[derive(Debug, Clone, PartialEq, Eq)]
pub enum Packet {
    /// Handshake announcement; valid only during session negotiation.
    Open(String),
    /// Peer requests a graceful end of the session.
    Close,
    /// Liveness probe, sent by the server.
    Ping,
    /// Liveness acknowledgment, sent by the peer.
    Pong,
    /// Application payload.
    Message(String),
    /// Transport upgrade probe; valid only during the upgrade handshake.
    Upgrade,
    /// Filler emitted during the upgrade handshake.
    Noop,
}

/// The kind of a packet, without its payload.
#[derive(Debug, Clone, Copy, PartialEq, Eq, Structural)]
pub enum PacketKind {
    Open,
    Close,
    Ping,
    Pong,
    Message,
    Upgrade,
    Noop,
}

impl Packet {
    /// The kind of this packet.
    pub open spec fn kind_spec(&self) -> PacketKind {
        match self {
            Packet::Open(_) => PacketKind::Open,
            Packet::Close => PacketKind::Close,
            Packet::Ping => PacketKind::Ping,
            Packet::Pong => PacketKind::Pong,
            Packet::Message(_) => PacketKind::Message,
            Packet::Upgrade => PacketKind::Upgrade,
            Packet::Noop => PacketKind::Noop,
        }
    }

    /// Returns the kind of this packet.
    pub fn kind(&self) -> (k: PacketKind)
        ensures
            k == self.kind_spec(),
    {
        match self {
            Packet::Open(_) => PacketKind::Open,
            Packet::Close => PacketKind::Close,
            Packet::Ping => PacketKind::Ping,
            Packet::Pong => PacketKind::Pong,
            Packet::Message(_) => PacketKind::Message,
            Packet::Upgrade => PacketKind::Upgrade,
            Packet::Noop => PacketKind::Noop,
        }
    }
}

/// The wire text for a packet: its type digit, then the payload for the
/// payload-bearing kinds.
pub open spec fn spec_encode(p: Packet) -> Seq<char> {
    match p {
        Packet::Open(data) => "0"@ + data@,
        Packet::Close => "1"@,
        Packet::Ping => "2"@,
        Packet::Pong => "3"@,
        Packet::Message(msg) => "4"@ + msg@,
        Packet::Upgrade => "5"@,
        Packet::Noop => "6"@,
    }
}

/// Encodes a packet into its wire text.
pub fn encode(p: Packet) -> (r: String)
    ensures
        r@ == spec_encode(p),
{
    match p {
        Packet::Open(data) => String::from_str("0").concat(data.as_str()),
        Packet::Close => String::from_str("1"),
        Packet::Ping => String::from_str("2"),
        Packet::Pong => String::from_str("3"),
        Packet::Message(msg) => String::from_str("4").concat(msg.as_str()),
        Packet::Upgrade => String::from_str("5"),
        Packet::Noop => String::from_str("6"),
    }
}

} // verus!
