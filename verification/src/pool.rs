use crate::address::{Host, HostModel};
use crate::index::{spec_distance, spec_next_free, spec_succ, succ};
use crate::server::Accepted;
use crate::status::{ConnStatus, Interest};
use crate::tls_conn::TlsConn;
use crate::token::{
    lemma_token_fits, spec_token, spec_valid_index, token_of, CHANNEL_IDLE, MAX_INDEX, MIN_INDEX,
};
use std::collections::HashMap;
use vstd::prelude::*;

verus! {

broadcast use vstd::std_specs::hash::group_hash_axioms;

/// How far the handshake of a pooled connection has come.
#[derive(Clone, Copy, Debug, PartialEq, Eq, Structural)]
pub enum Handshake {
    /// Still under way.
    Pending,
    /// Finished: the connection can carry a flow.
    Done,
    /// Failed: the connection is of no use.
    Failed,
}

/// The connections to the relay that are opened ahead of need. Those that
/// wait for a flow stand in the order in which they were opened; those that
/// carry a flow stay in the pool's books under their index until the flow
/// gives them back.
pub struct IdlePool {
    idle: Vec<TlsConn>,
    lent: HashMap<usize, TlsConn>,
    next_id: usize,
    capacity: usize,
    resolved: Option<Host>,
}

/// Mathematical value of an [`IdlePool`].
pub struct IdlePoolModel {
    /// The connections that wait for a flow, oldest first.
    pub idle: Seq<TlsConn>,
    /// The connections that carry a flow, by index.
    pub lent: Map<usize, TlsConn>,
    /// Where the search for the next free index begins.
    pub next_id: usize,
    /// The most connections that wait at one time.
    pub capacity: usize,
    /// The newest address of the relay, once its name has been resolved.
    pub resolved: Option<HostModel>,
}

impl IdlePoolModel {
    /// The indices of the connections that wait.
    pub open spec fn idle_indices(self) -> Set<usize> {
        Set::new(|k: usize| exists|i: int| 0 <= i < self.idle.len() && (#[trigger] self.idle[i]).index == k)
    }

    /// The indices that are taken: those that wait and those that carry a
    /// flow.
    pub open spec fn live(self) -> Set<usize> {
        self.idle_indices().union(self.lent.dom())
    }

    /// No more connections wait than the pool may hold, every connection
    /// has a valid index of its own, and the connections that wait are
    /// neither closing nor closed.
    #[verifier::opaque]
    pub open spec fn wf(self) -> bool {
        &&& spec_valid_index(self.next_id)
        &&& self.idle.len() <= self.capacity
        &&& self.lent.dom().finite()
        &&& forall|i: int|
            0 <= i < self.idle.len() ==> spec_valid_index((#[trigger] self.idle[i]).index)
                && self.idle[i].token == spec_token(self.idle[i].index, CHANNEL_IDLE)
                && self.idle[i].status.alive()
        &&& forall|i: int, j: int|
            0 <= i < j < self.idle.len() ==> (#[trigger] self.idle[i]).index != (
            #[trigger] self.idle[j]).index
        &&& forall|k: usize| #[trigger]
            self.lent.contains_key(k) ==> spec_valid_index(k) && self.lent[k].index == k
        &&& forall|i: int|
            0 <= i < self.idle.len() ==> !self.lent.contains_key((#[trigger] self.idle[i]).index)
    }

    /// How many connections the pool wants to open now: none before the
    /// relay's address is known, else as many as are missing.
    pub open spec fn wanted(self) -> int {
        if self.resolved is Some {
            self.capacity - self.idle.len()
        } else {
            0
        }
    }
}

impl View for IdlePool {
    type V = IdlePoolModel;

    closed spec fn view(&self) -> IdlePoolModel {
        IdlePoolModel {
            idle: self.idle@,
            lent: self.lent@,
            next_id: self.next_id,
            capacity: self.capacity,
            resolved: match self.resolved {
                Some(host) => Some(host@),
                None => None,
            },
        }
    }
}

impl IdlePool {
    pub open spec fn wf(&self) -> bool {
        self@.wf()
    }

    /// A pool that keeps `pool_size + 1` connections ready once the relay's
    /// address is known. It starts empty.
    pub fn new(pool_size: usize) -> (pool: IdlePool)
        requires
            pool_size < usize::MAX,
        ensures
            pool.wf(),
            pool@ == (IdlePoolModel {
                idle: Seq::empty(),
                lent: Map::empty(),
                next_id: MIN_INDEX,
                capacity: (pool_size + 1) as usize,
                resolved: None,
            }),
    {
        proof {
            reveal(IdlePoolModel::wf);
        }
        IdlePool {
            idle: Vec::new(),
            lent: HashMap::new(),
            next_id: MIN_INDEX,
            capacity: pool_size + 1,
            resolved: None,
        }
    }

    /// Sets the counter from which the next connection gets its index. The
    /// result says whether `next_id` is a valid index; nothing changes when
    /// it is not.
    pub fn init_index(&mut self, next_id: usize) -> (set: bool)
        requires
            old(self).wf(),
        ensures
            final(self).wf(),
            set == spec_valid_index(next_id),
            final(self)@ == (IdlePoolModel {
                next_id: if set {
                    next_id
                } else {
                    old(self)@.next_id
                },
                ..old(self)@
            }),
    {
        proof {
            reveal(IdlePoolModel::wf);
        }
        if next_id >= MIN_INDEX && next_id <= MAX_INDEX {
            self.next_id = next_id;
            true
        } else {
            false
        }
    }

    /// Takes the resolver's answer for the relay's name. An address
    /// replaces the one known before; a failure leaves it as it is, and the
    /// name is simply resolved again.
    pub fn resolve(&mut self, ip: Option<Host>)
        requires
            old(self).wf(),
        ensures
            final(self).wf(),
            final(self)@ == (IdlePoolModel {
                resolved: match ip {
                    Some(host) => Some(host@),
                    None => old(self)@.resolved,
                },
                ..old(self)@
            }),
    {
        proof {
            reveal(IdlePoolModel::wf);
        }
        match ip {
            Some(host) => {
                self.resolved = Some(host);
            },
            None => {},
        }
    }

    /// The newest address of the relay, if its name has been resolved.
    pub fn relay(&self) -> (host: &Option<Host>)
        ensures
            (match *host {
                Some(h) => Some(h@),
                None => None,
            }) == self@.resolved,
    {
        &self.resolved
    }

    /// How many connections the pool wants to open now.
    pub fn wanted(&self) -> (n: usize)
        requires
            self.wf(),
        ensures
            n == self@.wanted(),
    {
        proof {
            reveal(IdlePoolModel::wf);
        }
        match &self.resolved {
            Some(_) => self.capacity - self.idle.len(),
            None => 0,
        }
    }

    /// The number of connections that wait for a flow.
    pub fn idle_len(&self) -> (n: usize)
        ensures
            n == self@.idle.len(),
    {
        self.idle.len()
    }

    /// The position of the connection `index` among those that wait.
    fn position(&self, index: usize) -> (found: Option<usize>)
        requires
            self.wf(),
        ensures
            match found {
                Some(i) => i < self@.idle.len() && self@.idle[i as int].index == index,
                None => !self@.idle_indices().contains(index),
            },
    {
        proof {
            reveal(IdlePoolModel::wf);
        }
        let mut i: usize = 0;
        while i < self.idle.len()
            invariant
                i <= self.idle@.len(),
                forall|j: int| 0 <= j < i ==> (#[trigger] self.idle@[j]).index != index,
            decreases self.idle@.len() - i,
        {
            if self.idle[i].index == index {
                return Some(i);
            }
            i += 1;
        }
        None
    }

    /// Whether `index` is taken by a connection of the pool.
    pub fn is_live(&self, index: usize) -> (live: bool)
        requires
            self.wf(),
        ensures
            live == self@.live().contains(index),
    {
        proof {
            reveal(IdlePoolModel::wf);
        }
        if self.lent.contains_key(&index) {
            return true;
        }
        match self.position(index) {
            Some(i) => {
                assert(self@.idle[i as int].index == index);
                true
            },
            None => false,
        }
    }

    /// Hands out the first index at or after the counter that no
    /// connection of the pool has, and moves the counter behind it. After
    /// `MAX_INDEX` the search goes on from `MIN_INDEX`. The result is
    /// `None`, and nothing changes, when every index is taken.
    pub fn next_index(&mut self) -> (index: Option<usize>)
        requires
            old(self).wf(),
        ensures
            final(self).wf(),
            final(self)@ == (IdlePoolModel { next_id: final(self)@.next_id, ..old(self)@ }),
            match index {
                Some(i) => spec_next_free(old(self)@.next_id, old(self)@.live(), i)
                    && final(self)@.next_id == spec_succ(i),
                None => final(self)@.next_id == old(self)@.next_id && forall|j: usize|
                    spec_valid_index(j) ==> #[trigger] old(self)@.live().contains(j),
            },
            !old(self)@.live().contains(old(self)@.next_id) ==> index == Some(old(self)@.next_id),
    {
        proof {
            reveal(IdlePoolModel::wf);
        }
        let start = self.next_id;
        let range = MAX_INDEX - MIN_INDEX + 1;
        let mut candidate = start;
        let mut steps: usize = 0;
        let ghost live = self@.live();
        while steps < range
            invariant
                self.wf(),
                *self == *old(self),
                live == self@.live(),
                start == self.next_id,
                range == MAX_INDEX - MIN_INDEX + 1,
                steps <= range,
                spec_valid_index(candidate),
                steps < range ==> spec_distance(start, candidate) == steps,
                forall|j: usize|
                    spec_valid_index(j) && spec_distance(start, j) < steps ==> #[trigger] live.contains(
                        j,
                    ),
            decreases range - steps,
        {
            proof {
                reveal(IdlePoolModel::wf);
            }
            if !self.is_live(candidate) {
                self.next_id = succ(candidate);
                assert(self@.idle == old(self)@.idle);
                return Some(candidate);
            }
            candidate = succ(candidate);
            steps = steps + 1;
        }
        None
    }

    /// Adds one connection to those that wait, if the pool wants one: the
    /// relay's address is known, fewer connections wait than the pool may
    /// hold, and an index is free. The new connection is connecting; the
    /// result names its index and the token to register its socket under.
    pub fn connect(&mut self) -> (opened: Option<Accepted>)
        requires
            old(self).wf(),
        ensures
            final(self).wf(),
            final(self)@.lent == old(self)@.lent,
            final(self)@.capacity == old(self)@.capacity,
            final(self)@.resolved == old(self)@.resolved,
            match opened {
                Some(a) => old(self)@.wanted() > 0 && spec_next_free(
                    old(self)@.next_id,
                    old(self)@.live(),
                    a.index,
                ) && a.token == spec_token(a.index, CHANNEL_IDLE) && final(self)@.next_id
                    == spec_succ(a.index) && final(self)@.idle == old(self)@.idle.push(
                    TlsConn {
                        index: a.index,
                        token: a.token,
                        status: ConnStatus::Connecting,
                        interest: Interest::Both,
                    },
                ),
                None => final(self)@ == old(self)@ && (old(self)@.wanted() <= 0 || forall|j: usize|
                    spec_valid_index(j) ==> #[trigger] old(self)@.live().contains(j)),
            },
    {
        proof {
            reveal(IdlePoolModel::wf);
        }
        if self.wanted() == 0 {
            return None;
        }
        match self.next_index() {
            Some(index) => {
                let token = token_of(index, CHANNEL_IDLE);
                let ghost before = self@;
                self.idle.push(TlsConn::new(index, token));
                proof {
                    assert forall|i: int| 0 <= i < before.idle.len() implies (
                    #[trigger] before.idle[i]).index != index by {
                        if before.idle[i].index == index {
                            assert(old(self)@.idle_indices().contains(index));
                        }
                    }
                }
                Some(Accepted { index, token })
            },
            None => None,
        }
    }

    /// Takes note of how the handshake of the waiting connection `index`
    /// goes on. A finished handshake makes it established; a failed one
    /// drops it from the pool, which then wants a replacement. Nothing
    /// changes for a handshake that is still under way, or when no such
    /// connection waits.
    pub fn ready(&mut self, index: usize, outcome: Handshake)
        requires
            old(self).wf(),
        ensures
            final(self).wf(),
            final(self)@.lent == old(self)@.lent,
            final(self)@.next_id == old(self)@.next_id,
            final(self)@.capacity == old(self)@.capacity,
            final(self)@.resolved == old(self)@.resolved,
            !old(self)@.idle_indices().contains(index) || outcome == Handshake::Pending
                ==> final(self)@.idle == old(self)@.idle,
            old(self)@.idle_indices().contains(index) && outcome != Handshake::Pending ==> exists|
                i: int,
            |
                0 <= i < old(self)@.idle.len() && (#[trigger] old(self)@.idle[i]).index == index
                    && final(self)@.idle == (if outcome == Handshake::Failed {
                    old(self)@.idle.remove(i)
                } else {
                    old(self)@.idle.update(
                        i,
                        TlsConn {
                            status: if old(self)@.idle[i].status == ConnStatus::Shutdown {
                                ConnStatus::Shutdown
                            } else {
                                ConnStatus::Established
                            },
                            ..old(self)@.idle[i]
                        },
                    )
                }),
    {
        proof {
            reveal(IdlePoolModel::wf);
        }
        match self.position(index) {
            None => {},
            Some(i) => {
                assert(old(self)@.idle[i as int].index == index);
                assert(old(self)@.idle_indices().contains(index));
                match outcome {
                    Handshake::Pending => {},
                    Handshake::Done => {
                        let mut conn = self.idle[i];
                        conn.handshake_done();
                        self.idle.set(i, conn);
                    },
                    Handshake::Failed => {
                        self.idle.remove(i);
                    },
                }
            },
        }
    }

    /// Hands the first established connection that waits to a flow. The
    /// connection leaves the waiting ones and stays in the pool's books as
    /// lent, so that its index is not handed out again. The result is
    /// `None`, and nothing changes, when no established connection waits.
    pub fn get(&mut self) -> (conn: Option<TlsConn>)
        requires
            old(self).wf(),
        ensures
            final(self).wf(),
            final(self)@.next_id == old(self)@.next_id,
            final(self)@.capacity == old(self)@.capacity,
            final(self)@.resolved == old(self)@.resolved,
            match conn {
                Some(c) => exists|i: int|
                    0 <= i < old(self)@.idle.len() && #[trigger] old(self)@.idle[i] == c
                        && c.status == ConnStatus::Established && (forall|j: int|
                        0 <= j < i ==> (#[trigger] old(self)@.idle[j]).status
                            != ConnStatus::Established) && final(self)@.idle
                        == old(self)@.idle.remove(i) && final(self)@.lent
                        == old(self)@.lent.insert(c.index, c),
                None => final(self)@ == old(self)@ && forall|j: int|
                    0 <= j < old(self)@.idle.len() ==> (#[trigger] old(self)@.idle[j]).status
                        != ConnStatus::Established,
            },
    {
        match self.first_established() {
            None => None,
            Some(i) => {
                proof {
                    lemma_lend_keeps_wf(self@, i as int);
                }
                let conn = self.idle.remove(i);
                self.lent.insert(conn.index, conn);
                assert(old(self)@.idle[i as int] == conn);
                Some(conn)
            },
        }
    }

    /// The position of the first established connection that waits.
    fn first_established(&self) -> (found: Option<usize>)
        ensures
            match found {
                Some(i) => i < self@.idle.len() && self@.idle[i as int].status
                    == ConnStatus::Established && forall|j: int|
                    0 <= j < i ==> (#[trigger] self@.idle[j]).status != ConnStatus::Established,
                None => forall|j: int|
                    0 <= j < self@.idle.len() ==> (#[trigger] self@.idle[j]).status
                        != ConnStatus::Established,
            },
    {
        let mut i: usize = 0;
        while i < self.idle.len()
            invariant
                i <= self.idle@.len(),
                forall|j: int|
                    0 <= j < i ==> (#[trigger] self.idle@[j]).status != ConnStatus::Established,
            decreases self.idle@.len() - i,
        {
            if self.idle[i].is_established() {
                return Some(i);
            }
            i += 1;
        }
        None
    }

    /// Takes back the connection `index` from the flow that it carried:
    /// the connection leaves the pool's books, and its index is free again.
    pub fn release(&mut self, index: usize) -> (conn: Option<TlsConn>)
        requires
            old(self).wf(),
        ensures
            final(self).wf(),
            final(self)@ == (IdlePoolModel {
                lent: old(self)@.lent.remove(index),
                ..old(self)@
            }),
            conn == (if old(self)@.lent.contains_key(index) {
                Some(old(self)@.lent[index])
            } else {
                None
            }),
    {
        proof {
            reveal(IdlePoolModel::wf);
        }
        self.lent.remove(&index)
    }
}

/// Lending a waiting connection to a flow keeps the pool's books in order.
proof fn lemma_lend_keeps_wf(pool: IdlePoolModel, i: int)
    requires
        pool.wf(),
        0 <= i < pool.idle.len(),
    ensures
        (IdlePoolModel {
            idle: pool.idle.remove(i),
            lent: pool.lent.insert(pool.idle[i].index, pool.idle[i]),
            ..pool
        }).wf(),
{
    reveal(IdlePoolModel::wf);
    let c = pool.idle[i];
    let rest = pool.idle.remove(i);
    let after = IdlePoolModel { idle: rest, lent: pool.lent.insert(c.index, c), ..pool };
    assert forall|a: int| 0 <= a < rest.len() implies (#[trigger] rest[a]) == pool.idle[if a < i {
        a
    } else {
        a + 1
    }] by {}
    assert forall|a: int, b: int| 0 <= a < b < rest.len() implies (#[trigger] rest[a]).index != (
    #[trigger] rest[b]).index by {
        let x = if a < i {
            a
        } else {
            a + 1
        };
        let y = if b < i {
            b
        } else {
            b + 1
        };
        assert(pool.idle[x].index != pool.idle[y].index);
    }
    assert forall|a: int| 0 <= a < rest.len() implies !after.lent.contains_key(
        (#[trigger] rest[a]).index,
    ) by {
        let x = if a < i {
            a
        } else {
            a + 1
        };
        if x < i {
            assert(pool.idle[x].index != pool.idle[i].index);
        } else {
            assert(pool.idle[i].index != pool.idle[x].index);
        }
        assert(!pool.lent.contains_key(pool.idle[x].index));
    }
    assert forall|a: int| 0 <= a < rest.len() implies spec_valid_index((#[trigger] rest[a]).index)
        && rest[a].token == spec_token(rest[a].index, CHANNEL_IDLE) && rest[a].status.alive() by {
        let x = if a < i {
            a
        } else {
            a + 1
        };
        assert(spec_valid_index(pool.idle[x].index));
    }
}

/// The pool never holds more waiting connections than its size plus one:
/// with as many waiting, it wants no more.
pub proof fn law_pool_is_bounded(pool: IdlePoolModel)
    requires
        pool.wf(),
    ensures
        pool.idle.len() <= pool.capacity,
        pool.wanted() >= 0,
        pool.idle.len() + pool.wanted() <= pool.capacity,
        pool.resolved is Some ==> pool.idle.len() + pool.wanted() == pool.capacity,
{
    reveal(IdlePoolModel::wf);
}

/// No two connections of the pool share an index, whether they wait or
/// carry a flow, so no two of them share a token.
pub proof fn law_pool_indices_differ(pool: IdlePoolModel, i: int, j: int)
    requires
        pool.wf(),
        0 <= i < pool.idle.len(),
        0 <= j < pool.idle.len(),
        i != j,
    ensures
        pool.idle[i].index != pool.idle[j].index,
        pool.idle[i].token != pool.idle[j].token,
        !pool.lent.contains_key(pool.idle[i].index),
{
    reveal(IdlePoolModel::wf);
    if i < j {
        assert(pool.idle[i].index != pool.idle[j].index);
    } else {
        assert(pool.idle[j].index != pool.idle[i].index);
    }
    lemma_token_fits(pool.idle[i].index, CHANNEL_IDLE);
    lemma_token_fits(pool.idle[j].index, CHANNEL_IDLE);
}

} // verus!
