use crate::status::{elapsed, spec_elapsed};
use crate::token::{dispatch, spec_dispatch, Dispatch};
use vstd::prelude::*;

verus! {

/// Longest time, in milliseconds, that one wait for readiness may take.
pub const POLL_CAP_MS: u64 = 1;

/// Time, in milliseconds, between two checks of the TCP flows for idleness.
pub const TCP_CHECK_MS: u64 = 10000;

/// The time to wait for readiness: until the stack's next deadline, but no
/// longer than the cap; the cap when the stack has no deadline.
pub open spec fn spec_poll_timeout(delay: Option<u64>) -> u64 {
    match delay {
        Some(d) => if d < POLL_CAP_MS {
            d
        } else {
            POLL_CAP_MS
        },
        None => POLL_CAP_MS,
    }
}

/// The time to wait for readiness, given the delay until the stack's next
/// deadline in milliseconds.
pub fn poll_timeout(delay: Option<u64>) -> (ms: u64)
    ensures
        ms == spec_poll_timeout(delay),
        ms <= POLL_CAP_MS,
{
    match delay {
        Some(d) => if d < POLL_CAP_MS {
            d
        } else {
            POLL_CAP_MS
        },
        None => POLL_CAP_MS,
    }
}

/// A task that is due whenever more than a period has passed since it last
/// ran. Times are milliseconds on one monotonic clock.
#[derive(Clone, Copy, Debug, PartialEq, Eq, Structural)]
pub struct Cadence {
    pub last: u64,
    pub period: u64,
}

impl Cadence {
    /// Whether the task is due at `now`.
    pub open spec fn spec_due(self, now: u64) -> bool {
        spec_elapsed(self.last, now) > self.period
    }

    /// A task that counts as having run at `now`.
    pub fn new(now: u64, period: u64) -> (cadence: Cadence)
        ensures
            cadence == (Cadence { last: now, period }),
    {
        Cadence { last: now, period }
    }

    /// Whether the task is due at `now`. A task that is due counts as having
    /// run at `now`.
    pub fn due(&mut self, now: u64) -> (due: bool)
        ensures
            due == old(self).spec_due(now),
            final(self).period == old(self).period,
            final(self).last == (if due {
                now
            } else {
                old(self).last
            }),
    {
        if elapsed(self.last, now) > self.period {
            self.last = now;
            true
        } else {
            false
        }
    }
}

/// Which idle checks one turn of the event loop has to run.
#[derive(Clone, Copy, Debug, PartialEq, Eq, Structural)]
pub struct Tick {
    pub check_tcp: bool,
    pub check_udp: bool,
}

/// The timers of the event loop: TCP flows are checked for idleness every
/// ten seconds, UDP flows once in every idle duration.
#[derive(Clone, Copy, Debug, PartialEq, Eq, Structural)]
pub struct EventLoop {
    pub tcp: Cadence,
    pub udp: Cadence,
}

impl EventLoop {
    /// The timers of a loop that starts at `now`.
    pub fn new(now: u64, udp_idle_duration: u64) -> (timers: EventLoop)
        ensures
            timers == (EventLoop {
                tcp: Cadence { last: now, period: TCP_CHECK_MS },
                udp: Cadence { last: now, period: udp_idle_duration },
            }),
    {
        EventLoop { tcp: Cadence::new(now, TCP_CHECK_MS), udp: Cadence::new(now, udp_idle_duration) }
    }

    /// Decides at the end of a turn, at `now`, which idle checks to run.
    /// A check that runs counts from `now` again.
    pub fn tick(&mut self, now: u64) -> (tick: Tick)
        ensures
            tick.check_tcp == old(self).tcp.spec_due(now),
            tick.check_udp == old(self).udp.spec_due(now),
            final(self).tcp == (Cadence {
                last: if tick.check_tcp {
                    now
                } else {
                    old(self).tcp.last
                },
                period: old(self).tcp.period,
            }),
            final(self).udp == (Cadence {
                last: if tick.check_udp {
                    now
                } else {
                    old(self).udp.last
                },
                period: old(self).udp.period,
            }),
    {
        let check_tcp = self.tcp.due(now);
        let check_udp = self.udp.due(now);
        Tick { check_tcp, check_udp }
    }
}

/// What one turn of the event loop does with the events that the poller
/// reported: who gets each event, in the order of the events, and which
/// idle checks follow.
#[derive(Debug, PartialEq, Eq)]
pub struct Turn {
    pub targets: Vec<Dispatch>,
    pub tick: Tick,
}

impl EventLoop {
    /// Plans one turn: every event goes to the receiver that its token
    /// names, and the idle checks that are due at `now` run afterwards.
    pub fn turn(&mut self, tokens: &[usize], now: u64) -> (plan: Turn)
        ensures
            plan.targets@.len() == tokens@.len(),
            forall|i: int|
                0 <= i < tokens@.len() ==> #[trigger] plan.targets@[i] == spec_dispatch(tokens@[i]),
            plan.tick.check_tcp == old(self).tcp.spec_due(now),
            plan.tick.check_udp == old(self).udp.spec_due(now),
            final(self).tcp == (Cadence {
                last: if plan.tick.check_tcp {
                    now
                } else {
                    old(self).tcp.last
                },
                period: old(self).tcp.period,
            }),
            final(self).udp == (Cadence {
                last: if plan.tick.check_udp {
                    now
                } else {
                    old(self).udp.last
                },
                period: old(self).udp.period,
            }),
    {
        let mut targets: Vec<Dispatch> = Vec::new();
        let mut i: usize = 0;
        while i < tokens.len()
            invariant
                i <= tokens@.len(),
                targets@.len() == i,
                forall|k: int| 0 <= k < i ==> #[trigger] targets@[k] == spec_dispatch(tokens@[k]),
            decreases tokens@.len() - i,
        {
            targets.push(dispatch(tokens[i]));
            i += 1;
        }
        let tick = self.tick(now);
        Turn { targets, tick }
    }
}

/// A flow that has been idle for longer than the limit is found by the
/// first check that runs after the limit has passed; no check finds it
/// before.
pub proof fn law_idle_is_found(last_active: u64, limit: u64, now: u64)
    ensures
        spec_elapsed(last_active, now) > limit <==> now > last_active + limit,
{
}

} // verus!
