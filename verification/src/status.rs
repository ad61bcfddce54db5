use vstd::prelude::*;

verus! {

/// Where a connection or a flow stands in its life.
#[derive(Clone, Copy, Debug, PartialEq, Eq, Structural)]
pub enum ConnStatus {
    /// Waiting for the relay's address before a socket can be opened.
    PreConnecting,
    /// The socket is open and the handshake is under way.
    Connecting,
    /// Data may flow in both directions.
    Established,
    /// No new data is accepted; what is pending is still sent.
    Shutdown,
    /// Done with; the sockets are still registered with the poller.
    Closing,
    /// Deregistered. Nothing happens to the connection after this.
    Closed,
}

impl ConnStatus {
    /// Whether the connection still takes part in the event loop.
    pub open spec fn alive(self) -> bool {
        self != ConnStatus::Closing && self != ConnStatus::Closed
    }

    pub fn is_alive(self) -> (alive: bool)
        ensures
            alive == self.alive(),
    {
        self != ConnStatus::Closing && self != ConnStatus::Closed
    }

    /// Whether `next` may follow `self`: a connection moves forward through
    /// `PreConnecting`, `Connecting`, `Established`, `Shutdown`, `Closing`
    /// and `Closed`, may skip steps, and never moves back.
    pub open spec fn may_become(self, next: ConnStatus) -> bool {
        self.rank() <= next.rank()
    }

    /// Position of the status in the life of a connection.
    pub open spec fn rank(self) -> nat {
        match self {
            ConnStatus::PreConnecting => 0,
            ConnStatus::Connecting => 1,
            ConnStatus::Established => 2,
            ConnStatus::Shutdown => 3,
            ConnStatus::Closing => 4,
            ConnStatus::Closed => 5,
        }
    }
}

/// The readiness that a socket is registered for. It is never empty.
#[derive(Clone, Copy, Debug, PartialEq, Eq, Structural)]
pub enum Interest {
    Readable,
    Writable,
    Both,
}

impl Interest {
    pub open spec fn readable(self) -> bool {
        self != Interest::Writable
    }

    pub open spec fn writable(self) -> bool {
        self != Interest::Readable
    }

    pub fn is_readable(self) -> (r: bool)
        ensures
            r == self.readable(),
    {
        self != Interest::Writable
    }

    pub fn is_writable(self) -> (w: bool)
        ensures
            w == self.writable(),
    {
        self != Interest::Readable
    }

    /// The interest in everything that either of the two is interested in.
    pub open spec fn union_with(self, other: Interest) -> Interest {
        if self == other {
            self
        } else {
            Interest::Both
        }
    }

    /// The interest in everything that either of the two is interested in.
    pub fn union(self, other: Interest) -> (sum: Interest)
        ensures
            sum == self.union_with(other),
            sum.readable() == (self.readable() || other.readable()),
            sum.writable() == (self.writable() || other.writable()),
    {
        if self == other {
            self
        } else {
            Interest::Both
        }
    }

    /// The interest without what `other` is interested in, or `None` when
    /// nothing would be left.
    pub fn remove(self, other: Interest) -> (rest: Option<Interest>)
        ensures
            rest is None <==> (self.readable() ==> other.readable()) && (self.writable()
                ==> other.writable()),
            rest matches Some(i) ==> i.readable() == (self.readable() && !other.readable())
                && i.writable() == (self.writable() && !other.writable()),
    {
        match (self, other) {
            (Interest::Both, Interest::Readable) => Some(Interest::Writable),
            (Interest::Both, Interest::Writable) => Some(Interest::Readable),
            (Interest::Readable, Interest::Writable) => Some(Interest::Readable),
            (Interest::Writable, Interest::Readable) => Some(Interest::Writable),
            _ => None,
        }
    }
}

/// What the event loop has to tell the poller about a socket.
#[derive(Clone, Copy, Debug, PartialEq, Eq, Structural)]
pub enum PollAction {
    /// Leave the registration as it is.
    Keep,
    /// Register the socket again, for this interest.
    Reregister(Interest),
    /// Take the socket out of the poller.
    Deregister,
}

/// One readiness event as the poller reports it.
#[derive(Clone, Copy, Debug, PartialEq, Eq, Structural)]
pub struct Event {
    pub token: usize,
    pub readable: bool,
    pub writable: bool,
}

/// Time that passed from `earlier` to `later`, both in milliseconds on one
/// monotonic clock; zero when `later` is not later.
pub open spec fn spec_elapsed(earlier: u64, later: u64) -> u64 {
    if later >= earlier {
        (later - earlier) as u64
    } else {
        0
    }
}

pub fn elapsed(earlier: u64, later: u64) -> (ms: u64)
    ensures
        ms == spec_elapsed(earlier, later),
{
    if later >= earlier {
        later - earlier
    } else {
        0
    }
}

} // verus!
