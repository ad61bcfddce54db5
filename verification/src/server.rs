use crate::idle::{live_keys, spec_expired, spec_kept, sweep, Expires};
use crate::index::{spec_distance, spec_next_free, spec_succ, succ};
use crate::status::{elapsed, spec_elapsed};
use crate::token::{
    spec_token, spec_token_index, spec_valid_index, token_index, token_of, PollEvent,
    CHANNEL_CNT, CHANNEL_PROXY, MAX_INDEX, MIN_INDEX,
};
use std::collections::HashMap;
use vstd::prelude::*;

verus! {

broadcast use vstd::std_specs::hash::group_hash_axioms;

/// What the table knows of one accepted connection.
#[derive(Clone, Copy, Debug, PartialEq, Eq, Structural)]
pub struct Connection {
    pub index: usize,
    /// Token under which the connection's socket is registered.
    pub token: usize,
    /// When the connection last carried data, in milliseconds.
    pub last_active: u64,
    /// Idle time in milliseconds after which the connection is given up.
    pub timeout: u64,
}

impl Expires for Connection {
    /// Whether the connection has been idle for longer than its limit.
    open spec fn expired(&self, now: u64) -> bool {
        spec_elapsed(self.last_active, now) > self.timeout
    }

    fn timeout(&self, now: u64) -> (expired: bool) {
        elapsed(self.last_active, now) > self.timeout
    }
}

/// The index and the token that an accepted connection is given.
#[derive(Clone, Copy, Debug, PartialEq, Eq, Structural)]
pub struct Accepted {
    pub index: usize,
    pub token: usize,
}

/// The table of the connections that a listener has accepted, and the
/// counter from which new connections get their index.
pub struct TlsServer {
    next_id: usize,
    conns: HashMap<usize, Connection>,
}

/// Mathematical value of a [`TlsServer`].
pub struct TlsServerModel {
    /// Where the search for the next free index begins.
    pub next_id: usize,
    /// The live connections by index.
    pub conns: Map<usize, Connection>,
}

impl TlsServerModel {
    /// Every live connection stands under its own index, which is a valid
    /// one, and carries the token of that index.
    pub open spec fn wf(self) -> bool {
        &&& spec_valid_index(self.next_id)
        &&& self.conns.dom().finite()
        &&& forall|k: usize| #[trigger]
            self.conns.contains_key(k) ==> spec_valid_index(k) && self.conns[k].index == k
                && self.conns[k].token == spec_token(k, CHANNEL_PROXY)
    }

    /// The indices whose connections have been idle for too long at `now`.
    pub open spec fn expired(self, now: u64) -> Set<usize> {
        spec_expired(self.conns, now)
    }

    /// The table without the connections that have expired at `now`.
    pub open spec fn without_expired(self, now: u64) -> Map<usize, Connection> {
        spec_kept(self.conns, now)
    }
}

impl View for TlsServer {
    type V = TlsServerModel;

    closed spec fn view(&self) -> TlsServerModel {
        TlsServerModel { next_id: self.next_id, conns: self.conns@ }
    }
}

impl TlsServer {
    pub open spec fn wf(&self) -> bool {
        self@.wf()
    }

    /// An empty table whose first connection will get `MIN_INDEX`.
    pub fn new() -> (server: TlsServer)
        ensures
            server.wf(),
            server@.next_id == MIN_INDEX,
            server@.conns == Map::<usize, Connection>::empty(),
    {
        TlsServer { next_id: MIN_INDEX, conns: HashMap::new() }
    }

    /// An empty table whose first connection will get `next_id`, or
    /// `MIN_INDEX` when that is no valid index.
    pub fn with_counter(next_id: usize) -> (server: TlsServer)
        ensures
            server.wf(),
            server@.next_id == (if spec_valid_index(next_id) {
                next_id
            } else {
                MIN_INDEX
            }),
            server@.conns == Map::<usize, Connection>::empty(),
    {
        let start = if next_id >= MIN_INDEX && next_id <= MAX_INDEX {
            next_id
        } else {
            MIN_INDEX
        };
        TlsServer { next_id: start, conns: HashMap::new() }
    }

    /// Hands out the first index at or after the counter that no live
    /// connection has, and moves the counter behind it. After `MAX_INDEX`
    /// the search goes on from `MIN_INDEX`. The result is `None`, and
    /// nothing changes, when every index is taken.
    pub fn next_index(&mut self) -> (index: Option<usize>)
        requires
            old(self).wf(),
        ensures
            final(self).wf(),
            final(self)@.conns == old(self)@.conns,
            match index {
                Some(i) => spec_next_free(old(self)@.next_id, old(self)@.conns.dom(), i)
                    && final(self)@.next_id == spec_succ(i),
                None => final(self)@.next_id == old(self)@.next_id && forall|j: usize|
                    spec_valid_index(j) ==> #[trigger] old(self)@.conns.contains_key(j),
            },
            !old(self)@.conns.contains_key(old(self)@.next_id) ==> index == Some(
                old(self)@.next_id,
            ),
    {
        let start = self.next_id;
        let range = MAX_INDEX - MIN_INDEX + 1;
        let mut candidate = start;
        let mut steps: usize = 0;
        while steps < range
            invariant
                self.wf(),
                *self == *old(self),
                start == self.next_id,
                range == MAX_INDEX - MIN_INDEX + 1,
                steps <= range,
                spec_valid_index(candidate),
                steps < range ==> spec_distance(start, candidate) == steps,
                forall|j: usize|
                    spec_valid_index(j) && spec_distance(start, j) < steps
                        ==> #[trigger] self.conns@.contains_key(j),
            decreases range - steps,
        {
            if !self.conns.contains_key(&candidate) {
                self.next_id = succ(candidate);
                return Some(candidate);
            }
            candidate = succ(candidate);
            steps = steps + 1;
        }
        None
    }

    /// The index that an event's token belongs to.
    pub fn token2index(&self, token: usize) -> (index: usize)
        ensures
            index == spec_token_index(token),
    {
        token_index(token)
    }

    /// Gives a connection that the listener accepted its index and the
    /// token to register its socket under. The connection joins the table
    /// only with `register`. The result is `None` when every index is taken.
    pub fn accept(&mut self) -> (accepted: Option<Accepted>)
        requires
            old(self).wf(),
        ensures
            final(self).wf(),
            final(self)@.conns == old(self)@.conns,
            match accepted {
                Some(a) => spec_next_free(old(self)@.next_id, old(self)@.conns.dom(), a.index)
                    && a.token == spec_token(a.index, CHANNEL_PROXY) && final(self)@.next_id
                    == spec_succ(a.index),
                None => final(self)@.next_id == old(self)@.next_id && forall|j: usize|
                    spec_valid_index(j) ==> #[trigger] old(self)@.conns.contains_key(j),
            },
            !old(self)@.conns.contains_key(old(self)@.next_id) ==> accepted is Some
                && accepted->0.index == old(self)@.next_id,
    {
        match self.next_index() {
            Some(index) => {
                let token = token_of(index, CHANNEL_PROXY);
                Some(Accepted { index, token })
            },
            None => None,
        }
    }

    /// Takes note of whether the poller took the socket of the connection
    /// that was accepted as `index`. A connection that was registered
    /// joins the table, active as of `now`; one that was refused does not.
    /// Nothing changes either when `index` is no valid index or is live.
    pub fn register(&mut self, index: usize, registered: bool, now: u64, timeout: u64) -> (joined:
        bool)
        requires
            old(self).wf(),
        ensures
            final(self).wf(),
            final(self)@.next_id == old(self)@.next_id,
            joined == (registered && spec_valid_index(index) && !old(self)@.conns.contains_key(
                index,
            )),
            joined ==> final(self)@.conns == old(self)@.conns.insert(
                index,
                Connection {
                    index,
                    token: spec_token(index, CHANNEL_PROXY),
                    last_active: now,
                    timeout,
                },
            ),
            !joined ==> final(self)@.conns == old(self)@.conns,
    {
        if !registered || index < MIN_INDEX || index > MAX_INDEX || self.conns.contains_key(
            &index,
        ) {
            return false;
        }
        let token = token_of(index, CHANNEL_PROXY);
        self.conns.insert(index, Connection { index, token, last_active: now, timeout });
        true
    }

    /// Finds the connection that an event is for: the index that the
    /// event's token belongs to, if a connection lives under it.
    pub fn do_conn_event(&self, event: &PollEvent) -> (target: Option<usize>)
        requires
            self.wf(),
        ensures
            target == (if self@.conns.contains_key(spec_token_index(event.spec_token())) {
                Some(spec_token_index(event.spec_token()))
            } else {
                None
            }),
    {
        let index = self.token2index(event.token());
        if self.conns.contains_key(&index) {
            Some(index)
        } else {
            None
        }
    }

    /// Takes note of how a connection came out of an event: one that
    /// destroyed itself leaves the table.
    pub fn conn_done(&mut self, index: usize, destroyed: bool)
        requires
            old(self).wf(),
        ensures
            final(self).wf(),
            final(self)@.next_id == old(self)@.next_id,
            final(self)@.conns == (if destroyed {
                old(self)@.conns.remove(index)
            } else {
                old(self)@.conns
            }),
    {
        if destroyed {
            self.conns.remove(&index);
        }
    }

    /// Notes that the connection `index` carried data at `now`.
    pub fn touch(&mut self, index: usize, now: u64)
        requires
            old(self).wf(),
        ensures
            final(self).wf(),
            final(self)@.next_id == old(self)@.next_id,
            final(self)@.conns == (if old(self)@.conns.contains_key(index) {
                old(self)@.conns.insert(
                    index,
                    Connection { last_active: now, ..old(self)@.conns[index] },
                )
            } else {
                old(self)@.conns
            }),
    {
        let found = match self.conns.get(&index) {
            Some(conn) => Some(*conn),
            None => None,
        };
        if let Some(conn) = found {
            self.conns.insert(index, Connection { last_active: now, ..conn });
        }
    }

    /// The indices of the live connections, each once, in no promised order.
    pub fn live(&self) -> (keys: Vec<usize>)
        ensures
            keys@.no_duplicates(),
            keys@.to_set() == self@.conns.dom(),
    {
        live_keys(&self.conns)
    }

    /// Whether a connection lives under `index`.
    pub fn contains(&self, index: usize) -> (live: bool)
        ensures
            live == self@.conns.contains_key(index),
    {
        self.conns.contains_key(&index)
    }

    /// The number of live connections.
    pub fn len(&self) -> (n: usize)
        ensures
            n == self@.conns.len(),
    {
        self.conns.len()
    }

    /// Removes every connection that has been idle for longer than its
    /// limit at `now`, and names them, each once, in no promised order.
    pub fn check_timeout(&mut self, now: u64) -> (closed: Vec<usize>)
        requires
            old(self).wf(),
        ensures
            final(self).wf(),
            final(self)@.next_id == old(self)@.next_id,
            final(self)@.conns == old(self)@.without_expired(now),
            closed@.no_duplicates(),
            closed@.to_set() == old(self)@.expired(now),
    {
        let closed = sweep(&mut self.conns, now);
        proof {
            assert(self.conns@ =~= old(self)@.without_expired(now));
            assert(closed@.to_set() =~= old(self)@.expired(now));
        }
        closed
    }
}

/// An index that is handed out while the table is well formed belongs to no
/// live connection, and neither does its token: the tokens of two
/// connections in the table differ.
pub proof fn law_live_tokens_differ(table: TlsServerModel, a: usize, b: usize)
    requires
        table.wf(),
        table.conns.contains_key(a),
        table.conns.contains_key(b),
        a != b,
    ensures
        table.conns[a].token != table.conns[b].token,
        table.conns[a].index != table.conns[b].index,
{
    assert(a * CHANNEL_CNT + CHANNEL_PROXY <= usize::MAX);
    assert(b * CHANNEL_CNT + CHANNEL_PROXY <= usize::MAX);
}

} // verus!
