//! Liveness bookkeeping for the ping/pong heartbeat protocol.
//!
//! All instants are milliseconds on one monotonic clock supplied by the
//! caller; the core itself never reads a clock, so every timing decision
//! is checked here for every possible reading.

use vstd::prelude::*;

verus! {

/// The instant of the last received liveness acknowledgment.
///
/// Written by the packet dispatcher when a `Pong` arrives; read by the
/// heartbeat monitor to decide whether the peer is still responsive.
#[derive(Debug, Clone, Copy, PartialEq, Eq, Structural)]
pub struct HeartbeatState {
    last_ack_ms: u64,
}

impl HeartbeatState {
    /// The recorded instant of the last acknowledgment.
    pub closed spec fn last_ack_spec(&self) -> u64 {
        self.last_ack_ms
    }

    /// A probe sent at `probe_sent_ms` is acknowledged exactly when an
    /// acknowledgment was recorded strictly after the probe and less than
    /// `timeout_ms` later.
    pub open spec fn acknowledged_spec(&self, probe_sent_ms: u64, timeout_ms: u64) -> bool {
        &&& self.last_ack_spec() > probe_sent_ms
        &&& self.last_ack_spec() - probe_sent_ms < timeout_ms
    }

    /// Starts the bookkeeping as if an acknowledgment arrived at `now_ms`.
    pub fn new(now_ms: u64) -> (h: HeartbeatState)
        ensures
            h.last_ack_spec() == now_ms,
    {
        HeartbeatState { last_ack_ms: now_ms }
    }

    /// Returns the recorded instant of the last acknowledgment.
    pub fn last_ack(&self) -> (r: u64)
        ensures
            r == self.last_ack_spec(),
    {
        self.last_ack_ms
    }

    /// Records an acknowledgment received at `now_ms`.
    pub fn record_ack(&mut self, now_ms: u64)
        ensures
            final(self).last_ack_spec() == now_ms,
    {
        self.last_ack_ms = now_ms;
    }

    /// Decides whether a probe sent at `probe_sent_ms` was acknowledged
    /// within `timeout_ms`, from absolute instants.
    pub fn acknowledged(&self, probe_sent_ms: u64, timeout_ms: u64) -> (r: bool)
        ensures
            r == self.acknowledged_spec(probe_sent_ms, timeout_ms),
    {
        self.last_ack_ms > probe_sent_ms && self.last_ack_ms - probe_sent_ms < timeout_ms
    }
}

/// When the heartbeat monitor acts: it waits `grace_ms` before the first
/// probe round, then `period_ms` between the end of one round and the start
/// of the next; each round itself waits the probe timeout before judging.
#[derive(Debug, Clone, Copy, PartialEq, Eq, Structural)]
pub struct HeartbeatSchedule {
    /// Delay before the first probe, so the probe never races the
    /// connection's own handshake.
    pub grace_ms: u64,
    /// Delay between probe rounds.
    pub period_ms: u64,
}

/// Computes the monitor's schedule from the configured probe interval and
/// probe timeout: the grace period is two full intervals, and the gap
/// between rounds is what remains of an interval after the round has
/// already waited out the timeout. Configurations whose timeout exceeds
/// the interval, or whose doubled interval does not fit, are rejected.
pub fn heartbeat_schedule(interval_ms: u64, timeout_ms: u64) -> (r: Option<HeartbeatSchedule>)
    ensures
        r is Some <==> timeout_ms <= interval_ms && interval_ms <= u64::MAX / 2,
        r matches Some(s) ==> s.grace_ms == 2 * interval_ms && s.period_ms == interval_ms - timeout_ms,
{
    if timeout_ms <= interval_ms && interval_ms <= u64::MAX / 2 {
        Some(HeartbeatSchedule { grace_ms: 2 * interval_ms, period_ms: interval_ms - timeout_ms })
    } else {
        None
    }
}

} // verus!
