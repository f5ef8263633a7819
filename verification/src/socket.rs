//! The per-connection Socket: transport state machine, send path, and
//! packet dispatcher.
//!
//! The Socket decides everything about a connection — which transport is
//! active, what each operation writes, how inbound packets are answered —
//! and hands every actual write to its caller as an [`Outbound`] value.
//! The surrounding runtime owns the real channel handles, performs the
//! writes in order, and feeds transport results back in, so the single-
//! writer discipline of the channel is the caller's queue while every
//! decision is checked here.

use vstd::prelude::*;
use crate::errors::Error;
use crate::heartbeat::HeartbeatState;
use crate::packet::{Packet, PacketKind, spec_encode, encode};

verus! {

/// Which transport is currently active. At most one is ever populated;
/// `Empty` is the terminal, post-close state.
#[derive(Debug, Clone, Copy, PartialEq, Eq, Structural)]
pub enum ChannelKind {
    /// Chunked HTTP long-polling response stream.
    Http,
    /// Persistent WebSocket framing.
    Ws,
    /// No active channel; nothing observable may be written any more.
    Empty,
}

/// The payload of one outbound transport write.
#[derive(Debug, Clone, PartialEq, Eq)]
pub enum Frame {
    /// Wire text produced by the packet encoding.
    Text(String),
    /// Raw application bytes, never wrapped in the text envelope.
    Binary(Vec<u8>),
}

/// One outbound write, addressed to the transport that was active when it
/// was decided. The caller must perform writes in the order they are
/// handed out.
#[derive(Debug, Clone, PartialEq, Eq)]
pub enum Outbound {
    /// Stream the frame as one chunk of the long-poll response body.
    HttpChunk(Frame),
    /// Send the frame as one WebSocket frame of the matching type.
    WsFrame(Frame),
}

/// What closing the Socket requires of the channel owner.
#[derive(Debug, Clone, Copy, PartialEq, Eq, Structural)]
pub enum CloseAction {
    /// Hard-terminate the outstanding long-poll response stream.
    AbortHttp,
    /// Perform the graceful WebSocket close handshake.
    CloseWs,
    /// The channel was already empty; nothing to release.
    NoChannel,
}

/// The dispatcher's verdict on one inbound packet: process the next packet
/// (`Continue`), or terminate the connection (`Break`), each carrying the
/// outcome of handling this one.
#[derive(Debug, PartialEq, Eq)]
pub enum Flow {
    Continue(Result<(), Error>),
    Break(Result<(), Error>),
}

/// The dispatcher's decision on one inbound packet: either the verdict is
/// already decided, or the payload must first be delivered to the
/// application handler and its result folded in with [`message_outcome`].
#[derive(Debug, PartialEq, Eq)]
pub enum Dispatch {
    Decided(Flow),
    Deliver(String),
}

/// The application-supplied message handler. The dispatcher delegates every
/// application payload to it; the handler receives the Socket so it may
/// emit replies synchronously within its own invocation.
pub trait Handler {
    /// Handles one text payload.
    fn handle(&self, msg: String, socket: &mut Socket) -> Result<(), Error>;

    /// Handles one binary payload.
    fn handle_binary(&self, data: Vec<u8>, socket: &mut Socket) -> Result<(), Error>;
}

/// One logical connection: a session identifier, the active transport, and
/// the heartbeat bookkeeping.
///
/// The transport is a tagged union, so the two channels can never both be
/// populated; the channel moves from `Http` to `Ws` at most once (via
/// [`Socket::upgrade_from_http`]) and to `Empty` exactly once (via
/// [`Socket::close`]), never back.
#[derive(Debug)]
pub struct Socket {
    sid: i64,
    channel: ChannelKind,
    heartbeat: HeartbeatState,
}

impl Socket {
    /// The session identifier, fixed at creation.
    pub closed spec fn sid_spec(&self) -> i64 {
        self.sid
    }

    /// The active transport.
    pub closed spec fn channel_spec(&self) -> ChannelKind {
        self.channel
    }

    /// The heartbeat bookkeeping.
    pub closed spec fn heartbeat_spec(&self) -> HeartbeatState {
        self.heartbeat
    }

    /// The long-polling channel is active.
    pub open spec fn is_http_spec(&self) -> bool {
        self.channel_spec() == ChannelKind::Http
    }

    /// The WebSocket channel is active.
    pub open spec fn is_ws_spec(&self) -> bool {
        self.channel_spec() == ChannelKind::Ws
    }

    /// No channel is active.
    pub open spec fn is_closed_spec(&self) -> bool {
        self.channel_spec() == ChannelKind::Empty
    }

    /// Creates a Socket for a freshly established long-polling session.
    /// The heartbeat starts as if an acknowledgment arrived at `now_ms`.
    pub fn new_http(sid: i64, now_ms: u64) -> (s: Socket)
        ensures
            s.sid_spec() == sid,
            s.is_http_spec(),
            !s.is_ws_spec(),
            s.heartbeat_spec().last_ack_spec() == now_ms,
    {
        Socket { sid, channel: ChannelKind::Http, heartbeat: HeartbeatState::new(now_ms) }
    }

    /// Creates a Socket for a connection established as a native WebSocket.
    /// The heartbeat starts as if an acknowledgment arrived at `now_ms`.
    pub fn new_ws(sid: i64, now_ms: u64) -> (s: Socket)
        ensures
            s.sid_spec() == sid,
            s.is_ws_spec(),
            !s.is_http_spec(),
            s.heartbeat_spec().last_ack_spec() == now_ms,
    {
        Socket { sid, channel: ChannelKind::Ws, heartbeat: HeartbeatState::new(now_ms) }
    }

    /// Returns the session identifier.
    pub fn sid(&self) -> (r: i64)
        ensures
            r == self.sid_spec(),
    {
        self.sid
    }

    /// Returns the recorded instant of the last liveness acknowledgment.
    pub fn last_ack(&self) -> (r: u64)
        ensures
            r == self.heartbeat_spec().last_ack_spec(),
    {
        self.heartbeat.last_ack()
    }

    /// Whether the long-polling channel is active.
    pub fn is_http(&self) -> (r: bool)
        ensures
            r == self.is_http_spec(),
    {
        matches!(self.channel, ChannelKind::Http)
    }

    /// Whether the WebSocket channel is active.
    pub fn is_ws(&self) -> (r: bool)
        ensures
            r == self.is_ws_spec(),
    {
        matches!(self.channel, ChannelKind::Ws)
    }

    /// Atomically discards the long-polling channel and installs the
    /// WebSocket channel, preserving the session identifier and the
    /// heartbeat bookkeeping. When the Socket is not in the HTTP state the
    /// call is a documented no-op and returns `false`, leaving the Socket
    /// exactly as it was; it never installs a second channel or reverses
    /// an upgrade.
    pub fn upgrade_from_http(&mut self) -> (upgraded: bool)
        ensures
            upgraded == old(self).is_http_spec(),
            final(self).sid_spec() == old(self).sid_spec(),
            final(self).heartbeat_spec() == old(self).heartbeat_spec(),
            old(self).is_http_spec() ==> final(self).is_ws_spec(),
            !old(self).is_http_spec() ==> final(self).channel_spec() == old(self).channel_spec(),
    {
        match self.channel {
            ChannelKind::Http => {
                self.channel = ChannelKind::Ws;
                true
            },
            _ => false,
        }
    }

    /// Encodes the packet into wire text and addresses it to the active
    /// channel: a response chunk when long-polling, a text frame when
    /// WebSocket. On a closed Socket this is a silent no-op that reports
    /// success — callers must not use the send path to detect a dead
    /// connection; liveness is the heartbeat protocol's job.
    pub fn send(&mut self, packet: Packet) -> (out: Option<Outbound>)
        ensures
            *final(self) == *old(self),
            old(self).is_http_spec() ==> (out matches Some(Outbound::HttpChunk(Frame::Text(t)))
                && t@ == spec_encode(packet)),
            old(self).is_ws_spec() ==> (out matches Some(Outbound::WsFrame(Frame::Text(t)))
                && t@ == spec_encode(packet)),
            old(self).is_closed_spec() ==> out is None,
    {
        let text = encode(packet);
        match self.channel {
            ChannelKind::Http => Some(Outbound::HttpChunk(Frame::Text(text))),
            ChannelKind::Ws => Some(Outbound::WsFrame(Frame::Text(text))),
            ChannelKind::Empty => None,
        }
    }

    /// Wraps `msg` in a `Message` packet and sends it. This is the surface
    /// the application handler uses to push data back to the peer.
    pub fn emit(&mut self, msg: String) -> (out: Option<Outbound>)
        ensures
            *final(self) == *old(self),
            old(self).is_http_spec() ==> (out matches Some(Outbound::HttpChunk(Frame::Text(t)))
                && t@ == spec_encode(Packet::Message(msg))),
            old(self).is_ws_spec() ==> (out matches Some(Outbound::WsFrame(Frame::Text(t)))
                && t@ == spec_encode(Packet::Message(msg))),
            old(self).is_closed_spec() ==> out is None,
    {
        self.send(Packet::Message(msg))
    }

    /// Addresses `data` to the active channel exactly as given: a binary
    /// chunk when long-polling, a binary frame when WebSocket. The bytes
    /// bypass the text packet encoding entirely — binary and text payloads
    /// use different wire representations, and the outbound bytes are the
    /// raw payload, never a packet-wrapped form. On a closed Socket this is
    /// a silent no-op.
    pub fn emit_binary(&mut self, data: Vec<u8>) -> (out: Option<Outbound>)
        ensures
            *final(self) == *old(self),
            old(self).is_http_spec() ==> (out matches Some(Outbound::HttpChunk(Frame::Binary(b)))
                && b@ == data@),
            old(self).is_ws_spec() ==> (out matches Some(Outbound::WsFrame(Frame::Binary(b)))
                && b@ == data@),
            old(self).is_closed_spec() ==> out is None,
    {
        match self.channel {
            ChannelKind::Http => Some(Outbound::HttpChunk(Frame::Binary(data))),
            ChannelKind::Ws => Some(Outbound::WsFrame(Frame::Binary(data))),
            ChannelKind::Empty => None,
        }
    }

    /// Transitions the channel to `Empty` — one-way and terminal — and
    /// tells the caller how to release the handle it owns: abort the
    /// long-poll stream, or run the graceful WebSocket close handshake
    /// (fold its result in with [`finish_close`]). A Socket already closed
    /// yields `NoChannel`, so a second close acts on nothing.
    pub fn close(&mut self) -> (action: CloseAction)
        ensures
            final(self).is_closed_spec(),
            final(self).sid_spec() == old(self).sid_spec(),
            final(self).heartbeat_spec() == old(self).heartbeat_spec(),
            old(self).is_http_spec() ==> action == CloseAction::AbortHttp,
            old(self).is_ws_spec() ==> action == CloseAction::CloseWs,
            old(self).is_closed_spec() ==> action == CloseAction::NoChannel,
    {
        let action = match self.channel {
            ChannelKind::Http => CloseAction::AbortHttp,
            ChannelKind::Ws => CloseAction::CloseWs,
            ChannelKind::Empty => CloseAction::NoChannel,
        };
        self.channel = ChannelKind::Empty;
        action
    }

    /// Decides the dispatcher's answer to one inbound packet, with `now_ms`
    /// the instant of the call.
    ///
    /// Mid-session, `Open`, `Ping`, `Upgrade` and `Noop` are protocol
    /// violations that do not terminate the connection; `Close` terminates
    /// it gracefully; `Pong` records the liveness acknowledgment at
    /// `now_ms`; a `Message` payload must be delivered to the application
    /// handler, whose result is folded in with [`message_outcome`].
    pub fn dispatch(&mut self, packet: Packet, now_ms: u64) -> (d: Dispatch)
        ensures
            final(self).sid_spec() == old(self).sid_spec(),
            final(self).channel_spec() == old(self).channel_spec(),
            packet.kind_spec() != PacketKind::Pong
                ==> final(self).heartbeat_spec() == old(self).heartbeat_spec(),
            packet matches Packet::Open(_) ==> d == Dispatch::Decided(Flow::Continue(Err(
                Error::ProtocolViolation(PacketKind::Open)))),
            packet == Packet::Ping ==> d == Dispatch::Decided(Flow::Continue(Err(
                Error::ProtocolViolation(PacketKind::Ping)))),
            packet == Packet::Upgrade ==> d == Dispatch::Decided(Flow::Continue(Err(
                Error::ProtocolViolation(PacketKind::Upgrade)))),
            packet == Packet::Noop ==> d == Dispatch::Decided(Flow::Continue(Err(
                Error::ProtocolViolation(PacketKind::Noop)))),
            packet == Packet::Close ==> d == Dispatch::Decided(Flow::Break(Ok(()))),
            packet == Packet::Pong ==> d == Dispatch::Decided(Flow::Continue(Ok(())))
                && final(self).heartbeat_spec().last_ack_spec() == now_ms,
            packet matches Packet::Message(m) ==> d == Dispatch::Deliver(m),
    {
        match packet {
            Packet::Open(_) => Dispatch::Decided(Flow::Continue(Err(
                Error::ProtocolViolation(PacketKind::Open)))),
            Packet::Close => Dispatch::Decided(Flow::Break(Ok(()))),
            Packet::Ping => Dispatch::Decided(Flow::Continue(Err(
                Error::ProtocolViolation(PacketKind::Ping)))),
            Packet::Pong => {
                self.heartbeat.record_ack(now_ms);
                Dispatch::Decided(Flow::Continue(Ok(())))
            },
            Packet::Message(msg) => Dispatch::Deliver(msg),
            Packet::Upgrade => Dispatch::Decided(Flow::Continue(Err(
                Error::ProtocolViolation(PacketKind::Upgrade)))),
            Packet::Noop => Dispatch::Decided(Flow::Continue(Err(
                Error::ProtocolViolation(PacketKind::Noop)))),
        }
    }

    /// Dispatches one inbound packet, delivering application payloads to
    /// `handler` in place. `now_ms` is the instant of the call. For every
    /// packet kind but `Message` the verdict and the state change are
    /// exactly those of [`Socket::dispatch`]; for `Message` the connection
    /// continues and the verdict carries the handler's own result.
    pub fn handle_packet<H: Handler>(&mut self, packet: Packet, now_ms: u64, handler: &H) -> (f:
        Flow)
        ensures
            packet.kind_spec() != PacketKind::Message ==> {
                &&& final(self).sid_spec() == old(self).sid_spec()
                &&& final(self).channel_spec() == old(self).channel_spec()
            },
            packet matches Packet::Open(_) ==> f == Flow::Continue(Err(
                Error::ProtocolViolation(PacketKind::Open)))
                && final(self).heartbeat_spec() == old(self).heartbeat_spec(),
            packet == Packet::Ping ==> f == Flow::Continue(Err(
                Error::ProtocolViolation(PacketKind::Ping)))
                && final(self).heartbeat_spec() == old(self).heartbeat_spec(),
            packet == Packet::Upgrade ==> f == Flow::Continue(Err(
                Error::ProtocolViolation(PacketKind::Upgrade)))
                && final(self).heartbeat_spec() == old(self).heartbeat_spec(),
            packet == Packet::Noop ==> f == Flow::Continue(Err(
                Error::ProtocolViolation(PacketKind::Noop)))
                && final(self).heartbeat_spec() == old(self).heartbeat_spec(),
            packet == Packet::Close ==> f == Flow::Break(Ok(()))
                && final(self).heartbeat_spec() == old(self).heartbeat_spec(),
            packet == Packet::Pong ==> f == Flow::Continue(Ok(()))
                && final(self).heartbeat_spec().last_ack_spec() == now_ms,
            packet.kind_spec() == PacketKind::Message ==> f is Continue,
    {
        match self.dispatch(packet, now_ms) {
            Dispatch::Decided(f) => f,
            Dispatch::Deliver(msg) => message_outcome(handler.handle(msg, self)),
        }
    }

    /// Delivers one binary payload: unconditionally delegates to the
    /// handler and propagates its result unchanged. Binary data has no
    /// packet-kind dispatch, since it bypasses the text envelope.
    pub fn handle_binary<H: Handler>(&mut self, data: Vec<u8>, handler: &H) -> Result<(), Error> {
        handler.handle_binary(data, self)
    }

    /// Decides whether a liveness probe sent at `probe_sent_ms` has been
    /// acknowledged: a `Pong` was recorded strictly after the probe and
    /// less than `timeout_ms` later. When this is false after the timeout
    /// has elapsed, the peer is unresponsive and the monitor must signal
    /// connection failure.
    pub fn probe_acknowledged(&self, probe_sent_ms: u64, timeout_ms: u64) -> (r: bool)
        ensures
            r == self.heartbeat_spec().acknowledged_spec(probe_sent_ms, timeout_ms),
    {
        self.heartbeat.acknowledged(probe_sent_ms, timeout_ms)
    }
}

/// Turns the handler's result on one `Message` payload into the
/// dispatcher's answer: a failure of the handler does not tear the
/// connection down, so both cases continue, keeping the result.
pub fn message_outcome(r: Result<(), Error>) -> (f: Flow)
    ensures
        f == Flow::Continue(r),
{
    Flow::Continue(r)
}

/// Completes a [`Socket::close`]: aborting the long-poll stream and closing
/// nothing always succeed, while the WebSocket close handshake's own
/// result, as reported by the channel owner, is forwarded — a failure
/// becomes a transport error carrying the channel's description.
pub fn finish_close(action: CloseAction, ws_result: Result<(), String>) -> (r: Result<(), Error>)
    ensures
        action != CloseAction::CloseWs ==> r == Ok::<(), Error>(()),
        action == CloseAction::CloseWs && ws_result is Ok ==> r == Ok::<(), Error>(()),
        action == CloseAction::CloseWs ==> (ws_result matches Err(m)
            ==> r == Err::<(), Error>(Error::Transport(m))),
    {
    match action {
        CloseAction::CloseWs => match ws_result {
            Ok(()) => Ok(()),
            Err(m) => Err(Error::Transport(m)),
        },
        _ => Ok(()),
    }
}

} // verus!
