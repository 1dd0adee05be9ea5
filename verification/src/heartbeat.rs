//! Heartbeat bookkeeping.
//!
//! With a negotiated interval `h > 0` the writer task sends a heartbeat
//! frame whenever nothing has been written for `h` seconds, and the
//! reader task declares the peer dead when nothing has arrived for `2h`
//! seconds.  `h == 0` disables both.  Time is a caller-supplied
//! monotonic second count; the timers that produce ticks live outside
//! the crate.

use vstd::prelude::*;

verus! {

/// The writer-side timer: when did we last write anything.
#[derive(Clone, Copy, Debug, PartialEq, Eq, Structural)]
pub struct HeartbeatTimer {
    /// Negotiated interval in seconds; `0` means disabled.
    pub interval: u16,
    /// The monotonic second at which the last frame was written.
    pub last_activity: u64,
}

impl HeartbeatTimer {
    /// A heartbeat is owed: the interval is enabled and a full interval
    /// has passed with nothing written.
    pub open spec fn spec_due(&self, now: u64) -> bool {
        self.interval > 0 && now >= self.last_activity + self.interval
    }

    pub fn new(interval: u16, now: u64) -> (r: Self)
        ensures
            r.interval == interval,
            r.last_activity == now,
    {
        HeartbeatTimer { interval, last_activity: now }
    }

    /// Any write (data or heartbeat) restarts the idle window.
    pub fn record_activity(&mut self, now: u64)
        ensures
            final(self).interval == old(self).interval,
            final(self).last_activity == now,
    {
        self.last_activity = now;
    }

    pub fn due(&self, now: u64) -> (b: bool)
        ensures
            b == self.spec_due(now),
    {
        self.interval > 0 && now >= self.last_activity
            && now - self.last_activity >= self.interval as u64
    }
}

/// The reader-side deadline: when did the server last say anything.
#[derive(Clone, Copy, Debug, PartialEq, Eq, Structural)]
pub struct ServerLiveness {
    /// Negotiated interval in seconds; `0` means disabled.
    pub interval: u16,
    /// The monotonic second at which the last frame arrived.
    pub last_seen: u64,
}

impl ServerLiveness {
    /// The peer is presumed dead: twice the interval has passed with no
    /// frame at all.
    pub open spec fn spec_timed_out(&self, now: u64) -> bool {
        self.interval > 0 && now >= self.last_seen + 2 * self.interval
    }

    pub fn new(interval: u16, now: u64) -> (r: Self)
        ensures
            r.interval == interval,
            r.last_seen == now,
    {
        ServerLiveness { interval, last_seen: now }
    }

    /// Any inbound frame, heartbeats included, resets the deadline.
    pub fn record_frame(&mut self, now: u64)
        ensures
            final(self).interval == old(self).interval,
            final(self).last_seen == now,
    {
        self.last_seen = now;
    }

    pub fn timed_out(&self, now: u64) -> (b: bool)
        ensures
            b == self.spec_timed_out(now),
    {
        self.interval > 0 && now >= self.last_seen
            && now - self.last_seen >= 2 * (self.interval as u64)
    }
}

/// When the writer goes idle at `sent`, a heartbeat becomes due exactly
/// at `sent + h`, and once sent (and recorded) no second heartbeat is
/// due before another full interval passes: exactly one heartbeat per
/// idle `h`-second window.
pub proof fn lemma_one_heartbeat_per_idle_window(t: HeartbeatTimer, sent: u64, later: u64)
    requires
        t.interval > 0,
        t.spec_due(sent),
    ensures
        forall|m: u64| t.last_activity <= m < t.last_activity + t.interval ==> !t.spec_due(m),
        ({
            let after = HeartbeatTimer { interval: t.interval, last_activity: sent };
            &&& later < sent + t.interval ==> !after.spec_due(later)
            &&& later >= sent + t.interval ==> after.spec_due(later)
        }),
{
}

} // verus!
