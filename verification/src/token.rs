use crate::address::Host;
use crate::status::Event;
use vstd::prelude::*;

verus! {

/// Token under which the waker of the name resolver is registered.
pub const RESOLVER: usize = 1;

/// Smallest index that a connection can have.
pub const MIN_INDEX: usize = 2;

/// Number of poll tokens reserved for every connection index.
pub const CHANNEL_CNT: usize = 3;

/// Largest index that a connection can have.
pub const MAX_INDEX: usize = usize::MAX / CHANNEL_CNT;

/// Channel of a pooled connection that is still shaking hands.
pub const CHANNEL_IDLE: usize = 0;

/// Channel of the local UDP peer of a flow.
pub const CHANNEL_UDP: usize = 1;

/// Channel of the TLS connection that carries a TCP flow.
pub const CHANNEL_TCP: usize = 2;

/// Channel under which a listener registers the connections it accepts.
pub const CHANNEL_PROXY: usize = 0;

/// Whether `index` is one that a connection can have.
pub open spec fn spec_valid_index(index: usize) -> bool {
    MIN_INDEX <= index <= MAX_INDEX
}

/// Whether the token of channel `channel` of `index` fits in `usize`.
pub open spec fn spec_token_fits(index: usize, channel: usize) -> bool {
    channel < CHANNEL_CNT && index * CHANNEL_CNT + channel <= usize::MAX
}

/// The token of channel `channel` of connection `index`.
pub open spec fn spec_token(index: usize, channel: usize) -> usize {
    (index * CHANNEL_CNT + channel) as usize
}

/// The connection index that a token belongs to.
pub open spec fn spec_token_index(token: usize) -> usize {
    token / CHANNEL_CNT
}

/// The channel that a token stands for.
pub open spec fn spec_token_channel(token: usize) -> usize {
    token % CHANNEL_CNT
}

/// Who an event is meant for.
#[derive(Clone, Copy, Debug, PartialEq, Eq, Structural)]
pub enum Dispatch {
    /// The name resolver has results to hand out.
    Resolver,
    /// A pooled connection of this index advances its handshake.
    Idle(usize),
    /// The UDP flow of this index has news from the relay.
    Udp(usize),
    /// The TCP flow of this index has news from the relay.
    Tcp(usize),
}

/// The receiver of an event with this token: the resolver for `RESOLVER`,
/// else the channel of the index that the token encodes.
pub open spec fn spec_dispatch(token: usize) -> Dispatch {
    if token == RESOLVER {
        Dispatch::Resolver
    } else if token % CHANNEL_CNT == CHANNEL_IDLE {
        Dispatch::Idle(token / CHANNEL_CNT)
    } else if token % CHANNEL_CNT == CHANNEL_UDP {
        Dispatch::Udp(token / CHANNEL_CNT)
    } else {
        Dispatch::Tcp(token / CHANNEL_CNT)
    }
}

/// Whether the token of channel `channel` of `index` fits in `usize`.
pub fn token_fits(index: usize, channel: usize) -> (fits: bool)
    ensures
        fits == spec_token_fits(index, channel),
{
    channel < CHANNEL_CNT && index <= (usize::MAX - channel) / CHANNEL_CNT
}

/// The token of channel `channel` of connection `index`.
pub fn token_of(index: usize, channel: usize) -> (token: usize)
    requires
        spec_token_fits(index, channel),
    ensures
        token == spec_token(index, channel),
        spec_token_index(token) == index,
        spec_token_channel(token) == channel,
{
    index * CHANNEL_CNT + channel
}

/// The token of channel `channel` of connection `index`, or `None` when it
/// does not fit in `usize` or `channel` is no channel.
pub fn checked_token(index: usize, channel: usize) -> (token: Option<usize>)
    ensures
        token == (if spec_token_fits(index, channel) {
            Some(spec_token(index, channel))
        } else {
            None
        }),
{
    if token_fits(index, channel) {
        Some(token_of(index, channel))
    } else {
        None
    }
}

/// The connection index that a token belongs to.
pub fn token_index(token: usize) -> (index: usize)
    ensures
        index == spec_token_index(token),
{
    token / CHANNEL_CNT
}

/// The channel that a token stands for.
pub fn token_channel(token: usize) -> (channel: usize)
    ensures
        channel == spec_token_channel(token),
        channel < CHANNEL_CNT,
{
    token % CHANNEL_CNT
}

/// Decides who an event with this token is meant for.
pub fn dispatch(token: usize) -> (target: Dispatch)
    ensures
        target == spec_dispatch(token),
{
    if token == RESOLVER {
        Dispatch::Resolver
    } else {
        let channel = token % CHANNEL_CNT;
        let index = token / CHANNEL_CNT;
        if channel == CHANNEL_IDLE {
            Dispatch::Idle(index)
        } else if channel == CHANNEL_UDP {
            Dispatch::Udp(index)
        } else {
            Dispatch::Tcp(index)
        }
    }
}

/// What wakes a connection up: the network, or a name that was resolved.
#[derive(Debug, PartialEq, Eq)]
pub enum PollEvent {
    /// The poller reports readiness of a socket.
    Network(Event),
    /// The resolver answers for the connection with this token; `None` when
    /// the name could not be resolved.
    Dns(usize, Option<Host>),
}

impl PollEvent {
    pub open spec fn spec_token(&self) -> usize {
        match self {
            PollEvent::Network(event) => event.token,
            PollEvent::Dns(token, _) => *token,
        }
    }

    /// The token of the connection that the event is for.
    pub fn token(&self) -> (token: usize)
        ensures
            token == self.spec_token(),
    {
        match self {
            PollEvent::Network(event) => event.token,
            PollEvent::Dns(token, _) => *token,
        }
    }
}

/// Every channel of every index below `MAX_INDEX` has a token, and so has
/// the first channel of `MAX_INDEX` itself.
pub proof fn lemma_token_fits(index: usize, channel: usize)
    requires
        channel < CHANNEL_CNT,
        index < MAX_INDEX || (index == MAX_INDEX && channel == 0),
    ensures
        spec_token_fits(index, channel),
{
}

/// A token decodes to the index and the channel that it was made of.
pub proof fn law_token_roundtrip(index: usize, channel: usize)
    requires
        spec_token_fits(index, channel),
    ensures
        spec_token_index(spec_token(index, channel)) == index,
        spec_token_channel(spec_token(index, channel)) == channel,
{
}

/// A token is made of the index and the channel that it decodes to, so two
/// tokens that decode alike are the same token.
pub proof fn law_token_decode_injective(t1: usize, t2: usize)
    requires
        spec_token_index(t1) == spec_token_index(t2),
        spec_token_channel(t1) == spec_token_channel(t2),
    ensures
        t1 == t2,
        spec_token_fits(spec_token_index(t1), spec_token_channel(t1)),
        spec_token(spec_token_index(t1), spec_token_channel(t1)) == t1,
{
}

/// Two different pairs of index and channel never share a token.
pub proof fn law_token_unique(i1: usize, c1: usize, i2: usize, c2: usize)
    requires
        spec_token_fits(i1, c1),
        spec_token_fits(i2, c2),
        i1 != i2 || c1 != c2,
    ensures
        spec_token(i1, c1) != spec_token(i2, c2),
{
}

/// No token of a connection is the resolver's, and an event for a
/// connection reaches the channel of the index that its token was made of.
pub proof fn law_dispatch_by_token(index: usize, channel: usize)
    requires
        spec_valid_index(index),
        spec_token_fits(index, channel),
    ensures
        spec_token(index, channel) != RESOLVER,
        spec_dispatch(spec_token(index, channel)) == (if channel == CHANNEL_IDLE {
            Dispatch::Idle(index)
        } else if channel == CHANNEL_UDP {
            Dispatch::Udp(index)
        } else {
            Dispatch::Tcp(index)
        }),
{
}

} // verus!
