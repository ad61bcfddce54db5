use crate::idle::{live_keys, spec_expired, spec_kept, sweep, Expires};
use crate::status::{elapsed, spec_elapsed};
use std::collections::HashMap;
use vstd::prelude::*;

verus! {

broadcast use vstd::std_specs::hash::group_hash_axioms;

/// What the flow manager knows of one live flow.
#[derive(Clone, Copy, Debug, PartialEq, Eq, Structural)]
pub struct FlowRecord {
    /// The stack socket that terminates the flow.
    pub handle: usize,
    /// Index of the TLS connection that carries the flow.
    pub conn: usize,
    /// When the flow last carried data, in milliseconds.
    pub last_active: u64,
    /// Idle time in milliseconds after which the flow is torn down.
    pub timeout: u64,
}

impl Expires for FlowRecord {
    open spec fn expired(&self, now: u64) -> bool {
        spec_elapsed(self.last_active, now) > self.timeout
    }

    fn timeout(&self, now: u64) -> (expired: bool) {
        elapsed(self.last_active, now) > self.timeout
    }
}

/// How a request to open a flow ended.
#[derive(Clone, Copy, Debug, PartialEq, Eq, Structural)]
pub enum Opened {
    /// The flow is new and has its record now.
    New,
    /// The socket has a flow already; it is left as it is.
    Exists,
    /// The pool had no connection. There is no record, the packet that
    /// asked for the flow is dropped, and the peer will send it again.
    Exhausted,
    /// The connection carries another flow. There is no record.
    ConnBusy,
}

/// The live flows of one kind, TCP or UDP, by stack socket.
pub struct FlowTable {
    flows: HashMap<usize, FlowRecord>,
    timeout: u64,
}

/// Mathematical value of a [`FlowTable`].
pub struct FlowTableModel {
    /// The live flows by stack socket.
    pub flows: Map<usize, FlowRecord>,
    /// The idle limit that new flows get, in milliseconds.
    pub timeout: u64,
}

impl FlowTableModel {
    /// Every flow stands under its own socket, and no two flows share a
    /// TLS connection.
    pub open spec fn wf(self) -> bool {
        &&& self.flows.dom().finite()
        &&& forall|h: usize| #[trigger] self.flows.contains_key(h) ==> self.flows[h].handle == h
        &&& forall|a: usize, b: usize|
            #![trigger self.flows[a], self.flows[b]]
            self.flows.contains_key(a) && self.flows.contains_key(b) && a != b
                ==> self.flows[a].conn != self.flows[b].conn
    }

    /// Whether some flow is carried by the connection `conn`.
    pub open spec fn uses(self, conn: usize) -> bool {
        exists|h: usize| #[trigger] self.flows.contains_key(h) && self.flows[h].conn == conn
    }

    /// How a request to open the flow of `handle` over `conn` ends.
    pub open spec fn opening(self, handle: usize, conn: Option<usize>) -> Opened {
        if self.flows.contains_key(handle) {
            Opened::Exists
        } else {
            match conn {
                None => Opened::Exhausted,
                Some(c) => if self.uses(c) {
                    Opened::ConnBusy
                } else {
                    Opened::New
                },
            }
        }
    }
}

impl View for FlowTable {
    type V = FlowTableModel;

    closed spec fn view(&self) -> FlowTableModel {
        FlowTableModel { flows: self.flows@, timeout: self.timeout }
    }
}

impl FlowTable {
    pub open spec fn wf(&self) -> bool {
        self@.wf()
    }

    /// A table without flows, whose flows will get the idle limit `timeout`.
    pub fn new(timeout: u64) -> (table: FlowTable)
        ensures
            table.wf(),
            table@ == (FlowTableModel { flows: Map::empty(), timeout }),
    {
        FlowTable { flows: HashMap::new(), timeout }
    }

    /// The record of the flow of `handle`, if there is one.
    pub fn lookup(&self, handle: usize) -> (record: Option<FlowRecord>)
        ensures
            record == (if self@.flows.contains_key(handle) {
                Some(self@.flows[handle])
            } else {
                None
            }),
    {
        match self.flows.get(&handle) {
            Some(record) => Some(*record),
            None => None,
        }
    }

    /// The socket of the flow that the connection `conn` carries, if there
    /// is one.
    pub fn by_conn(&self, conn: usize) -> (handle: Option<usize>)
        requires
            self.wf(),
        ensures
            match handle {
                Some(h) => self@.flows.contains_key(h) && self@.flows[h].conn == conn,
                None => !self@.uses(conn),
            },
    {
        let keys = live_keys(&self.flows);
        let mut i: usize = 0;
        while i < keys.len()
            invariant
                i <= keys@.len(),
                keys@.to_set() == self.flows@.dom(),
                forall|j: int|
                    0 <= j < i ==> self.flows@[#[trigger] keys@[j]].conn != conn,
            decreases keys@.len() - i,
        {
            let h = keys[i];
            assert(keys@.to_set().contains(h));
            let hit = match self.flows.get(&h) {
                Some(record) => record.conn == conn,
                None => false,
            };
            if hit {
                return Some(h);
            }
            i += 1;
        }
        proof {
            assert forall|h: usize| #[trigger] self@.flows.contains_key(h) implies self@.flows[h].conn
                != conn by {
                assert(keys@.to_set().contains(h));
                let j = choose|j: int| 0 <= j < keys@.len() && keys@[j] == h;
                assert(keys@[j] == h);
            }
        }
        None
    }

    /// Opens the flow of the stack socket `handle` over the TLS connection
    /// that the pool handed out, if it handed one out. A flow gets its
    /// record only when it is new, the pool had a connection, and that
    /// connection carries no other flow.
    pub fn open(&mut self, handle: usize, conn: Option<usize>, now: u64) -> (opened: Opened)
        requires
            old(self).wf(),
        ensures
            final(self).wf(),
            final(self)@.timeout == old(self)@.timeout,
            opened == old(self)@.opening(handle, conn),
            opened == Opened::New ==> final(self)@.flows == old(self)@.flows.insert(
                handle,
                FlowRecord { handle, conn: conn->0, last_active: now, timeout: old(self)@.timeout },
            ),
            opened != Opened::New ==> final(self)@.flows == old(self)@.flows,
    {
        if self.flows.contains_key(&handle) {
            return Opened::Exists;
        }
        match conn {
            None => Opened::Exhausted,
            Some(c) => {
                match self.by_conn(c) {
                    Some(h) => Opened::ConnBusy,
                    None => {
                        self.flows.insert(
                            handle,
                            FlowRecord { handle, conn: c, last_active: now, timeout: self.timeout },
                        );
                        Opened::New
                    },
                }
            },
        }
    }

    /// Ends the flow of `handle`. The result is the connection that the
    /// flow gives back, or `None` when there was no such flow.
    pub fn close(&mut self, handle: usize) -> (conn: Option<usize>)
        requires
            old(self).wf(),
        ensures
            final(self).wf(),
            final(self)@.timeout == old(self)@.timeout,
            final(self)@.flows == old(self)@.flows.remove(handle),
            conn == (if old(self)@.flows.contains_key(handle) {
                Some(old(self)@.flows[handle].conn)
            } else {
                None
            }),
    {
        match self.flows.remove(&handle) {
            Some(record) => Some(record.conn),
            None => None,
        }
    }

    /// Notes that the flow of `handle` carried data at `now`.
    pub fn touch(&mut self, handle: usize, now: u64)
        requires
            old(self).wf(),
        ensures
            final(self).wf(),
            final(self)@.timeout == old(self)@.timeout,
            final(self)@.flows == (if old(self)@.flows.contains_key(handle) {
                old(self)@.flows.insert(
                    handle,
                    FlowRecord { last_active: now, ..old(self)@.flows[handle] },
                )
            } else {
                old(self)@.flows
            }),
    {
        let found = self.lookup(handle);
        if let Some(record) = found {
            self.flows.insert(handle, FlowRecord { last_active: now, ..record });
        }
    }

    /// The number of live flows.
    pub fn len(&self) -> (n: usize)
        ensures
            n == self@.flows.len(),
    {
        self.flows.len()
    }

    /// Tears down every flow that has been idle for longer than its limit
    /// at `now`, and names their sockets, each once, in no promised order.
    /// The connections of those flows carry no flow afterwards.
    pub fn check_timeout(&mut self, now: u64) -> (closed: Vec<usize>)
        requires
            old(self).wf(),
        ensures
            final(self).wf(),
            final(self)@.timeout == old(self)@.timeout,
            final(self)@.flows == spec_kept(old(self)@.flows, now),
            closed@.no_duplicates(),
            closed@.to_set() == spec_expired(old(self)@.flows, now),
    {
        sweep(&mut self.flows, now)
    }
}

/// A live flow has exactly one stack socket and exactly one TLS connection,
/// and shares neither: two records with the same socket, or with the same
/// connection, are one record.
pub proof fn law_flow_owns_socket_and_connection(table: FlowTableModel, a: usize, b: usize)
    requires
        table.wf(),
        table.flows.contains_key(a),
        table.flows.contains_key(b),
    ensures
        table.flows[a].handle == a,
        table.flows[a].handle == table.flows[b].handle ==> a == b,
        table.flows[a].conn == table.flows[b].conn ==> a == b,
{
}

/// The connection of a flow that was torn down carries no flow any more, so
/// its index can be handed out again.
pub proof fn law_closed_flow_frees_connection(table: FlowTableModel, handle: usize)
    requires
        table.wf(),
        table.flows.contains_key(handle),
    ensures
        !(FlowTableModel { flows: table.flows.remove(handle), ..table }).uses(
            table.flows[handle].conn,
        ),
{
    let after = FlowTableModel { flows: table.flows.remove(handle), ..table };
    let conn = table.flows[handle].conn;
    if after.uses(conn) {
        let h = choose|h: usize| #[trigger] after.flows.contains_key(h) && after.flows[h].conn == conn;
        assert(table.flows.contains_key(h) && h != handle);
        assert(table.flows[h].conn != table.flows[handle].conn);
    }
}

/// While the pool has no connection to hand out, no flow is opened: the
/// table stays as it is, however often the peer asks.
pub proof fn law_exhausted_pool_opens_nothing(table: FlowTableModel, handle: usize)
    ensures
        table.opening(handle, None) != Opened::New,
{
}

} // verus!
