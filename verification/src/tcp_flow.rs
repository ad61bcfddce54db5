use crate::address::Address;
use crate::buffer::buffer_bytes;
use crate::codec::{encode_request, spec_is_hash, spec_request, CONNECT};
use crate::pipe::{law_pipe_keeps_order, Pipe, PipeModel};
use crate::status::{elapsed, spec_elapsed, ConnStatus};
use crate::udp_backend::MAX_BUFFER_SIZE;
use bytes::BytesMut;
use vstd::prelude::*;

verus! {

/// One TCP flow between a local peer, whose connection the stack
/// terminates, and the relay, which is reached through a pooled TLS
/// connection. Each direction has its own pipe.
pub struct TcpFlow {
    handle: usize,
    conn: usize,
    to_relay: Pipe,
    to_local: Pipe,
    status: ConnStatus,
    local_done: bool,
    remote_done: bool,
    last_active: u64,
    timeout: u64,
    request: Ghost<Seq<u8>>,
}

/// Mathematical value of a [`TcpFlow`].
pub struct TcpFlowModel {
    /// The stack socket of the flow.
    pub handle: usize,
    /// Index of the TLS connection of the flow.
    pub conn: usize,
    /// What goes to the relay: the request, then what the local peer sent.
    pub to_relay: PipeModel,
    /// What goes to the local peer: what the relay sent.
    pub to_local: PipeModel,
    pub status: ConnStatus,
    /// The local peer has sent its FIN.
    pub local_done: bool,
    /// The relay has closed its side.
    pub remote_done: bool,
    pub last_active: u64,
    pub timeout: u64,
    /// The request header that opened the flow.
    pub request: Seq<u8>,
}

impl TcpFlowModel {
    /// Both pipes keep their books, and the request stands first in what
    /// went to the relay.
    pub open spec fn wf(self) -> bool {
        &&& self.to_relay.wf()
        &&& self.to_local.wf()
        &&& self.request.len() <= self.to_relay.received.len()
        &&& self.to_relay.received.take(self.request.len() as int) == self.request
    }

    /// Everything that the flow took from the local peer, in order.
    pub open spec fn from_local(self) -> Seq<u8> {
        self.to_relay.received.skip(self.request.len() as int)
    }

    /// Everything that the flow took from the relay, in order.
    pub open spec fn from_relay(self) -> Seq<u8> {
        self.to_local.received
    }

    /// Whether the flow takes `n` more bytes from the local peer: it is
    /// established and the pipe to the relay has room.
    pub open spec fn takes_from_local(self, n: nat) -> bool {
        &&& self.status == ConnStatus::Established
        &&& !self.local_done
        &&& self.to_relay.pending.len() < MAX_BUFFER_SIZE
        &&& self.to_relay.pending.len() + n <= usize::MAX
    }

    /// Whether the flow takes `n` more bytes from the relay: it has not
    /// begun to close and the pipe to the local peer has room.
    pub open spec fn takes_from_relay(self, n: nat) -> bool {
        &&& self.status.alive()
        &&& !self.remote_done
        &&& self.to_local.pending.len() < MAX_BUFFER_SIZE
        &&& self.to_local.pending.len() + n <= usize::MAX
    }

    /// The status that the pending bytes and the closed halves call for: a
    /// flow that is shutting down begins to close once the relay has closed
    /// its side too and nothing waits in either direction.
    pub open spec fn settled(self) -> ConnStatus {
        if self.status == ConnStatus::Shutdown && self.to_relay.pending.len() == 0
            && self.remote_done && self.to_local.pending.len() == 0 {
            ConnStatus::Closing
        } else {
            self.status
        }
    }

    /// Whether the flow has been idle for longer than its limit at `now`.
    pub open spec fn expired(self, now: u64) -> bool {
        spec_elapsed(self.last_active, now) > self.timeout
    }
}

impl View for TcpFlow {
    type V = TcpFlowModel;

    closed spec fn view(&self) -> TcpFlowModel {
        TcpFlowModel {
            handle: self.handle,
            conn: self.conn,
            to_relay: self.to_relay@,
            to_local: self.to_local@,
            status: self.status,
            local_done: self.local_done,
            remote_done: self.remote_done,
            last_active: self.last_active,
            timeout: self.timeout,
            request: self.request@,
        }
    }
}

impl TcpFlow {
    pub open spec fn wf(&self) -> bool {
        self@.wf()
    }

    /// Opens the flow of the stack socket `handle` over the TLS connection
    /// `conn`. The request to connect to `dst` is the first thing that
    /// waits for the relay, before any payload.
    pub fn open(handle: usize, conn: usize, hash: &[u8], dst: &Address, now: u64, timeout: u64) -> (flow:
        TcpFlow)
        requires
            spec_is_hash(hash@),
            dst.wf(),
        ensures
            flow.wf(),
            flow@ == (TcpFlowModel {
                handle,
                conn,
                to_relay: PipeModel {
                    pending: spec_request(hash@, CONNECT, dst@),
                    received: spec_request(hash@, CONNECT, dst@),
                    emitted: Seq::empty(),
                },
                to_local: PipeModel {
                    pending: Seq::empty(),
                    received: Seq::empty(),
                    emitted: Seq::empty(),
                },
                status: ConnStatus::Established,
                local_done: false,
                remote_done: false,
                last_active: now,
                timeout,
                request: spec_request(hash@, CONNECT, dst@),
            }),
    {
        let mut header = BytesMut::new();
        encode_request(&mut header, hash, CONNECT, dst);
        let ghost request = spec_request(hash@, CONNECT, dst@);
        assert(buffer_bytes(header) =~= request);
        let mut to_relay = Pipe::new();
        let bytes = header.as_ref();
        assert(bytes@.len() == buffer_bytes(header).len());
        to_relay.push(bytes);
        assert(to_relay@.pending =~= request);
        assert(to_relay@.received =~= request);
        let flow = TcpFlow {
            handle,
            conn,
            to_relay,
            to_local: Pipe::new(),
            status: ConnStatus::Established,
            local_done: false,
            remote_done: false,
            last_active: now,
            timeout,
            request: Ghost(request),
        };
        assert(flow@.to_relay.received.take(request.len() as int) =~= request);
        flow
    }

    /// Takes payload that the local peer sent, if the flow has room for it;
    /// the peer is held back otherwise and nothing changes. The payload
    /// joins what waits for the relay, behind everything taken before.
    pub fn from_local(&mut self, data: &[u8], now: u64) -> (taken: bool)
        requires
            old(self).wf(),
        ensures
            final(self).wf(),
            taken == old(self)@.takes_from_local(data@.len()),
            taken ==> final(self)@ == (TcpFlowModel {
                to_relay: PipeModel {
                    pending: old(self)@.to_relay.pending + data@,
                    received: old(self)@.to_relay.received + data@,
                    emitted: old(self)@.to_relay.emitted,
                },
                last_active: now,
                ..old(self)@
            }),
            taken ==> final(self)@.from_local() == old(self)@.from_local() + data@,
            !taken ==> final(self)@ == old(self)@,
    {
        if self.status != ConnStatus::Established || self.local_done || !self.to_relay.writable()
            || data.len() > usize::MAX - self.to_relay.len() {
            return false;
        }
        self.to_relay.push(data);
        self.last_active = now;
        proof {
            let n = self.request@.len() as int;
            assert(self@.to_relay.received.take(n) =~= old(self)@.to_relay.received.take(n));
            assert(self@.from_local() =~= old(self)@.from_local() + data@);
        }
        true
    }

    /// Takes payload that the relay sent, if the flow has room for it; the
    /// relay is held back otherwise and nothing changes.
    pub fn from_relay(&mut self, data: &[u8], now: u64) -> (taken: bool)
        requires
            old(self).wf(),
        ensures
            final(self).wf(),
            taken == old(self)@.takes_from_relay(data@.len()),
            taken ==> final(self)@ == (TcpFlowModel {
                to_local: PipeModel {
                    pending: old(self)@.to_local.pending + data@,
                    received: old(self)@.to_local.received + data@,
                    emitted: old(self)@.to_local.emitted,
                },
                last_active: now,
                ..old(self)@
            }),
            !taken ==> final(self)@ == old(self)@,
    {
        if !self.status.is_alive() || self.remote_done || !self.to_local.writable() || data.len()
            > usize::MAX - self.to_local.len() {
            return false;
        }
        self.to_local.push(data);
        self.last_active = now;
        true
    }

    /// The bytes that wait for the relay, first to last.
    pub fn relay_pending(&self) -> (bytes: &[u8])
        ensures
            bytes@ == self@.to_relay.pending,
    {
        self.to_relay.pending()
    }

    /// The bytes that wait for the local peer, first to last.
    pub fn local_pending(&self) -> (bytes: &[u8])
        ensures
            bytes@ == self@.to_local.pending,
    {
        self.to_local.pending()
    }

    /// Takes note that the TLS connection took the first `n` bytes that
    /// waited for the relay.
    pub fn relay_took(&mut self, n: usize) -> (taken: usize)
        requires
            old(self).wf(),
        ensures
            final(self).wf(),
            taken == (if n <= old(self)@.to_relay.pending.len() {
                n as int
            } else {
                old(self)@.to_relay.pending.len() as int
            }),
            final(self)@ == (TcpFlowModel {
                to_relay: PipeModel {
                    pending: old(self)@.to_relay.pending.skip(taken as int),
                    received: old(self)@.to_relay.received,
                    emitted: old(self)@.to_relay.emitted + old(self)@.to_relay.pending.take(
                        taken as int,
                    ),
                },
                ..old(self)@
            }),
    {
        self.to_relay.consume(n)
    }

    /// Takes note that the stack socket took the first `n` bytes that
    /// waited for the local peer.
    pub fn local_took(&mut self, n: usize) -> (taken: usize)
        requires
            old(self).wf(),
        ensures
            final(self).wf(),
            taken == (if n <= old(self)@.to_local.pending.len() {
                n as int
            } else {
                old(self)@.to_local.pending.len() as int
            }),
            final(self)@ == (TcpFlowModel {
                to_local: PipeModel {
                    pending: old(self)@.to_local.pending.skip(taken as int),
                    received: old(self)@.to_local.received,
                    emitted: old(self)@.to_local.emitted + old(self)@.to_local.pending.take(
                        taken as int,
                    ),
                },
                ..old(self)@
            }),
    {
        self.to_local.consume(n)
    }

    /// Takes note that the local peer has sent its FIN: the flow takes no
    /// more from it and, if it was established, shuts down.
    pub fn local_fin(&mut self)
        requires
            old(self).wf(),
        ensures
            final(self).wf(),
            final(self)@ == (TcpFlowModel {
                local_done: true,
                status: if old(self)@.status == ConnStatus::Established {
                    ConnStatus::Shutdown
                } else {
                    old(self)@.status
                },
                ..old(self)@
            }),
    {
        self.local_done = true;
        if self.status == ConnStatus::Established {
            self.status = ConnStatus::Shutdown;
        }
    }

    /// Takes note that the relay has closed its side: the flow takes no
    /// more from it, and the stack socket is to be closed once the local
    /// peer has everything.
    pub fn relay_closed(&mut self)
        requires
            old(self).wf(),
        ensures
            final(self).wf(),
            final(self)@ == (TcpFlowModel { remote_done: true, ..old(self)@ }),
    {
        self.remote_done = true;
    }

    /// Gives the flow up after an error on its socket or its connection.
    pub fn fail(&mut self)
        requires
            old(self).wf(),
        ensures
            final(self).wf(),
            final(self)@ == (TcpFlowModel {
                status: if old(self)@.status == ConnStatus::Closed {
                    ConnStatus::Closed
                } else {
                    ConnStatus::Closing
                },
                ..old(self)@
            }),
    {
        if self.status != ConnStatus::Closed {
            self.status = ConnStatus::Closing;
        }
    }

    /// Lets the flow begin to close once both halves are done and nothing
    /// waits in either direction.
    pub fn settle(&mut self) -> (status: ConnStatus)
        requires
            old(self).wf(),
        ensures
            final(self).wf(),
            status == old(self)@.settled(),
            final(self)@ == (TcpFlowModel { status: old(self)@.settled(), ..old(self)@ }),
    {
        if self.status == ConnStatus::Shutdown && self.to_relay.is_empty() && self.remote_done
            && self.to_local.is_empty() {
            self.status = ConnStatus::Closing;
        }
        self.status
    }

    /// Finishes a closing flow: it becomes closed, and the result says that
    /// its sockets have to leave the poller and its index is free again.
    pub fn check_close(&mut self) -> (closed: bool)
        requires
            old(self).wf(),
        ensures
            final(self).wf(),
            closed == (old(self)@.status == ConnStatus::Closing),
            final(self)@ == (TcpFlowModel {
                status: if closed {
                    ConnStatus::Closed
                } else {
                    old(self)@.status
                },
                ..old(self)@
            }),
    {
        if self.status == ConnStatus::Closing {
            self.status = ConnStatus::Closed;
            true
        } else {
            false
        }
    }

    /// Whether the flow has been idle for longer than its limit at `now`.
    pub fn timed_out(&self, now: u64) -> (expired: bool)
        ensures
            expired == self@.expired(now),
    {
        elapsed(self.last_active, now) > self.timeout
    }

    pub fn status(&self) -> (status: ConnStatus)
        ensures
            status == self@.status,
    {
        self.status
    }

    pub fn handle(&self) -> (handle: usize)
        ensures
            handle == self@.handle,
    {
        self.handle
    }

    pub fn conn(&self) -> (conn: usize)
        ensures
            conn == self@.conn,
    {
        self.conn
    }
}

/// What a flow has handed to the relay is the beginning of the request
/// followed by what the local peer sent, byte for byte and in order; once
/// nothing waits, it is all of it. What it has handed to the local peer is
/// the beginning of what the relay sent, and all of it once nothing waits.
pub proof fn law_flow_keeps_order(flow: TcpFlowModel)
    requires
        flow.wf(),
    ensures
        flow.to_relay.emitted == (flow.request + flow.from_local()).take(
            flow.to_relay.emitted.len() as int,
        ),
        flow.to_relay.pending.len() == 0 ==> flow.to_relay.emitted == flow.request
            + flow.from_local(),
        flow.to_local.emitted == flow.from_relay().take(flow.to_local.emitted.len() as int),
        flow.to_local.pending.len() == 0 ==> flow.to_local.emitted == flow.from_relay(),
{
    law_pipe_keeps_order(flow.to_relay);
    law_pipe_keeps_order(flow.to_local);
    let n = flow.request.len() as int;
    assert(flow.request + flow.from_local() =~= flow.to_relay.received) by {
        assert(flow.to_relay.received =~= flow.to_relay.received.take(n)
            + flow.to_relay.received.skip(n));
    }
}

/// No payload reaches the relay before the request: as long as the relay
/// has taken no more bytes than the request is long, all it has is the
/// beginning of the request.
pub proof fn law_request_goes_first(flow: TcpFlowModel)
    requires
        flow.wf(),
    ensures
        flow.to_relay.emitted.len() <= flow.request.len() ==> flow.to_relay.emitted
            == flow.request.take(flow.to_relay.emitted.len() as int),
        flow.to_relay.emitted.len() >= flow.request.len() ==> flow.to_relay.emitted.take(
            flow.request.len() as int,
        ) == flow.request,
{
    law_pipe_keeps_order(flow.to_relay);
    let n = flow.request.len() as int;
    let m = flow.to_relay.emitted.len() as int;
    if m <= n {
        assert(flow.to_relay.received.take(n).take(m) =~= flow.to_relay.received.take(m));
    } else {
        assert(flow.to_relay.received.take(m).take(n) =~= flow.to_relay.received.take(n));
    }
}

} // verus!
