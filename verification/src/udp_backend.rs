use crate::address::{Address, AddressModel};
use crate::buffer::buffer_bytes;
use crate::codec::{
    frame_datagram, parse_udp, spec_parse_udp, spec_udp_frame, UdpParse, UdpParseResult,
    MAX_UDP_HEADER_LEN,
};
use crate::status::{elapsed, spec_elapsed, ConnStatus, Event, Interest, PollAction};
use bytes::BytesMut;
use vstd::prelude::*;

verus! {

/// Most bytes that may wait for the target before the sender is held back.
pub const MAX_BUFFER_SIZE: usize = 1048576;

/// What a backend carries between a tunnel and its target, as far as the
/// connection that owns it needs to know.
pub trait Backend {
    /// Idle time, in milliseconds, after which the backend is given up.
    spec fn idle_limit(&self) -> u64;

    /// Bytes taken from the tunnel that the target has not accepted yet.
    spec fn pending(&self) -> Seq<u8>;

    fn get_timeout(&self) -> (limit: u64)
        ensures
            limit == self.idle_limit(),
    ;

    /// Whether more than the idle limit passed between `t1` and `t2`.
    fn timeout(&self, t1: u64, t2: u64) -> (expired: bool)
        ensures
            expired == (spec_elapsed(t1, t2) > self.idle_limit()),
    {
        elapsed(t1, t2) > self.get_timeout()
    }

    /// Which halves of a readiness event of its socket the backend acts on.
    fn ready(&self, event: &Event) -> (plan: ReadyPlan);

    /// Takes bytes from the tunnel: they join the end of what is pending.
    fn dispatch(&mut self, data: &[u8])
        requires
            old(self).pending().len() + data@.len() <= usize::MAX,
        ensures
            final(self).pending() == old(self).pending() + data@,
            final(self).idle_limit() == old(self).idle_limit(),
    ;
}

/// What became of one datagram that was handed to the socket.
#[derive(Clone, Copy, Debug, PartialEq, Eq, Structural)]
pub enum SendOutcome {
    /// The socket took this many bytes.
    Sent(usize),
    /// The socket cannot take a datagram now.
    WouldBlock,
    /// The socket reported another error.
    Failed,
}

/// What to do next with the pending bytes.
#[derive(Debug, PartialEq, Eq)]
pub enum SendStep {
    /// Send the pending bytes `from..to` to `address` as one datagram, then
    /// report the outcome.
    Transmit { address: Address, from: usize, to: usize },
    /// Nothing can be sent now.
    Stop,
}

/// Mathematical value of a [`SendStep`].
pub enum SendStepModel {
    Transmit { address: AddressModel, from: nat, to: nat },
    Stop,
}

impl View for SendStep {
    type V = SendStepModel;

    open spec fn view(&self) -> SendStepModel {
        match self {
            SendStep::Transmit { address, from, to } => SendStepModel::Transmit {
                address: address@,
                from: *from as nat,
                to: *to as nat,
            },
            SendStep::Stop => SendStepModel::Stop,
        }
    }
}

/// Which halves of a readiness event a backend acts on.
#[derive(Clone, Copy, Debug, PartialEq, Eq, Structural)]
pub struct ReadyPlan {
    /// Read datagrams from the target until it has none.
    pub read: bool,
    /// Try again to send what is pending.
    pub flush: bool,
}

/// The relay's side of one UDP association: datagram frames that arrive
/// through the tunnel are sent to their targets, and datagrams that come back
/// are framed for the tunnel.
pub struct UdpBackend {
    send_buffer: BytesMut,
    recv_head: BytesMut,
    index: usize,
    token: usize,
    status: ConnStatus,
    interest: Interest,
    timeout: u64,
    bytes_read: usize,
    bytes_sent: usize,
    remote_addr: Address,
}

/// Mathematical value of a [`UdpBackend`].
pub struct UdpBackendModel {
    /// Frames taken from the tunnel and not sent yet, as they arrived.
    pub pending: Seq<u8>,
    /// The frame that was built for the last datagram read.
    pub frame: Seq<u8>,
    pub index: usize,
    pub token: usize,
    pub status: ConnStatus,
    pub interest: Interest,
    /// Idle limit in milliseconds.
    pub timeout: u64,
    pub bytes_read: usize,
    pub bytes_sent: usize,
    /// The peer that the last datagram came from.
    pub remote_addr: AddressModel,
}

impl View for UdpBackend {
    type V = UdpBackendModel;

    closed spec fn view(&self) -> UdpBackendModel {
        UdpBackendModel {
            pending: buffer_bytes(self.send_buffer),
            frame: buffer_bytes(self.recv_head),
            index: self.index,
            token: self.token,
            status: self.status,
            interest: self.interest,
            timeout: self.timeout,
            bytes_read: self.bytes_read,
            bytes_sent: self.bytes_sent,
            remote_addr: self.remote_addr@,
        }
    }
}

/// The status after a round of sending ended without an error: a backend
/// that is shutting down and has nothing left to send is closing.
pub open spec fn spec_settle(status: ConnStatus, pending: Seq<u8>) -> ConnStatus {
    if status == ConnStatus::Shutdown && pending.len() == 0 {
        ConnStatus::Closing
    } else {
        status
    }
}

/// The interest that a live backend registers for: readable when the tunnel
/// can take what is read, writable when bytes are pending, and writable
/// alone when reading is held back.
pub open spec fn spec_target_interest(readable: bool, has_pending: bool) -> Interest {
    if readable {
        if has_pending {
            Interest::Both
        } else {
            Interest::Readable
        }
    } else {
        Interest::Writable
    }
}

/// Whether a live backend has to register again: its interest in writing
/// differs from having bytes pending, or its interest in reading differs
/// from what is asked for.
pub open spec fn spec_interest_changed(old: Interest, readable: bool, has_pending: bool) -> bool {
    has_pending != old.writable() || readable != (if has_pending {
        old.readable()
    } else {
        true
    })
}

/// What `do_send` decides for a backend in state `b`.
pub open spec fn spec_do_send(b: UdpBackendModel) -> (UdpBackendModel, SendStepModel) {
    match spec_parse_udp(b.pending) {
        UdpParse::Packet { address, length, payload } => (
            b,
            SendStepModel::Transmit {
                address,
                from: (b.pending.len() - payload.len()) as nat,
                to: (b.pending.len() - payload.len() + length) as nat,
            },
        ),
        UdpParse::Continued => (
            UdpBackendModel { status: spec_settle(b.status, b.pending), ..b },
            SendStepModel::Stop,
        ),
        UdpParse::InvalidProtocol => (
            UdpBackendModel { status: ConnStatus::Closing, pending: Seq::empty(), ..b },
            SendStepModel::Stop,
        ),
    }
}

/// The state after the outcome of sending the first pending frame, and
/// whether to go on with the next one. Without a whole frame at the front
/// there was nothing to send, and nothing changes.
pub open spec fn spec_sent(b: UdpBackendModel, outcome: SendOutcome) -> (UdpBackendModel, bool) {
    let length = spec_parse_udp(b.pending)->length;
    let payload = spec_parse_udp(b.pending)->payload;
    if !(spec_parse_udp(b.pending) is Packet) {
        (b, false)
    } else {
        spec_sent_frame(b, outcome, length, payload)
    }
}

/// The state after the outcome of sending a frame of `length` bytes that
/// stood at the front of the pending bytes, with `payload` behind its
/// header.
pub open spec fn spec_sent_frame(
    b: UdpBackendModel,
    outcome: SendOutcome,
    length: nat,
    payload: Seq<u8>,
) -> (UdpBackendModel, bool) {
    match outcome {
        SendOutcome::Sent(size) => {
            let counted = (b.bytes_sent + size) as usize;
            if size == length {
                (
                    UdpBackendModel {
                        bytes_sent: counted,
                        pending: payload.skip(length as int),
                        ..b
                    },
                    true,
                )
            } else {
                (
                    UdpBackendModel {
                        bytes_sent: counted,
                        pending: Seq::empty(),
                        status: ConnStatus::Closing,
                        ..b
                    },
                    false,
                )
            }
        },
        SendOutcome::WouldBlock => (b, false),
        SendOutcome::Failed => (
            UdpBackendModel { pending: Seq::empty(), status: ConnStatus::Closing, ..b },
            false,
        ),
    }
}

impl UdpBackend {
    /// A backend for the association `index`, whose socket is bound to
    /// `local` and registered under `token` for reading.
    pub fn new(index: usize, token: usize, timeout: u64, local: Address) -> (backend: UdpBackend)
        ensures
            backend@ == (UdpBackendModel {
                pending: Seq::empty(),
                frame: Seq::empty(),
                index,
                token,
                status: ConnStatus::Established,
                interest: Interest::Readable,
                timeout,
                bytes_read: 0,
                bytes_sent: 0,
                remote_addr: local@,
            }),
    {
        UdpBackend {
            send_buffer: BytesMut::new(),
            recv_head: BytesMut::new(),
            index,
            token,
            status: ConnStatus::Established,
            interest: Interest::Readable,
            timeout,
            bytes_read: 0,
            bytes_sent: 0,
            remote_addr: local,
        }
    }

    /// Decides what to do with the pending bytes.
    ///
    /// A whole frame at the front is to be sent as one datagram. A frame cut
    /// short stays pending until more bytes arrive; a backend that is
    /// shutting down with nothing pending starts closing. Bytes that begin
    /// no frame are dropped and close the backend.
    pub fn do_send(&mut self) -> (step: SendStep)
        ensures
            (final(self)@, step@) == spec_do_send(old(self)@),
            step matches SendStep::Transmit { address, from, to } ==> from <= to
                <= final(self)@.pending.len() && address.wf(),
    {
        let total = self.send_buffer.len();
        let parsed = parse_udp(self.send_buffer.as_ref());
        match parsed {
            UdpParseResult::Packet(packet) => {
                let from = total - packet.payload.len();
                SendStep::Transmit { address: packet.address, from, to: from + packet.length }
            },
            UdpParseResult::Continued => {
                if self.status == ConnStatus::Shutdown && total == 0 {
                    self.status = ConnStatus::Closing;
                }
                SendStep::Stop
            },
            UdpParseResult::InvalidProtocol => {
                self.send_buffer.clear();
                self.status = ConnStatus::Closing;
                SendStep::Stop
            },
        }
    }

    /// Takes note of what became of the datagram that `do_send` asked for.
    ///
    /// A datagram sent whole leaves the pending bytes, and the next frame may
    /// follow. A socket that cannot take it leaves everything pending. A
    /// datagram sent in part, or an error, drops what is pending and closes
    /// the backend. The bytes that the socket took are counted in any case.
    pub fn sent(&mut self, outcome: SendOutcome) -> (more: bool)
        requires
            outcome matches SendOutcome::Sent(size) ==> old(self)@.bytes_sent + size
                <= usize::MAX,
        ensures
            (final(self)@, more) == spec_sent(old(self)@, outcome),
    {
        let total = self.send_buffer.len();
        let parsed = parse_udp(self.send_buffer.as_ref());
        let (length, behind) = match parsed {
            UdpParseResult::Packet(packet) => (packet.length, packet.payload.len()),
            _ => {
                return false;
            },
        };
        match outcome {
            SendOutcome::Sent(size) => {
                self.bytes_sent = self.bytes_sent + size;
                if size == length {
                    let consumed = total - behind + length;
                    let ghost before = buffer_bytes(self.send_buffer);
                    let _ = self.send_buffer.split_to(consumed);
                    assert(before.skip(consumed as int) =~= before.skip(total - behind).skip(
                        length as int,
                    ));
                    true
                } else {
                    self.send_buffer.clear();
                    self.status = ConnStatus::Closing;
                    false
                }
            },
            SendOutcome::WouldBlock => false,
            SendOutcome::Failed => {
                self.send_buffer.clear();
                self.status = ConnStatus::Closing;
                false
            },
        }
    }

    /// Frames a datagram for the tunnel under the address `peer`: the peer
    /// that a datagram from a target came from, or the destination of a
    /// datagram that a local peer sent.
    ///
    /// The peer and the size are noted, and the frame to write into the
    /// tunnel is the header for `peer` and the payload's length, then the
    /// payload: one frame for one datagram, with nothing in between.
    pub fn do_read(&mut self, peer: &Address, payload: &[u8])
        requires
            peer.wf(),
            payload@.len() <= u16::MAX,
            old(self)@.bytes_read + payload@.len() <= usize::MAX,
        ensures
            final(self)@ == (UdpBackendModel {
                frame: spec_udp_frame(peer@, payload@),
                remote_addr: peer@,
                bytes_read: (old(self)@.bytes_read + payload@.len()) as usize,
                ..old(self)@
            }),
    {
        self.remote_addr = peer.duplicate();
        self.bytes_read = self.bytes_read + payload.len();
        self.recv_head.clear();
        assert(MAX_UDP_HEADER_LEN + payload@.len() <= usize::MAX);
        frame_datagram(&mut self.recv_head, peer, payload);
        assert(buffer_bytes(self.recv_head) =~= spec_udp_frame(peer@, payload@));
    }

    /// The frame that `do_read` built last.
    pub fn frame(&self) -> (bytes: &[u8])
        ensures
            bytes@ == self@.frame,
    {
        self.recv_head.as_ref()
    }

    /// The bytes that wait to be sent, first to last.
    pub fn pending_bytes(&self) -> (bytes: &[u8])
        ensures
            bytes@ == self@.pending,
    {
        self.send_buffer.as_ref()
    }

    /// Gives the backend up after an error that it cannot recover from: the
    /// socket failed to read, or the tunnel refused a frame.
    pub fn fail(&mut self)
        ensures
            final(self)@ == (UdpBackendModel { status: ConnStatus::Closing, ..old(self)@ }),
    {
        self.status = ConnStatus::Closing;
    }

    /// Takes note of whether the poller accepted the last registration: a
    /// refusal closes the backend.
    pub fn setup(&mut self, registered: bool)
        ensures
            final(self)@ == (UdpBackendModel {
                status: if registered {
                    old(self)@.status
                } else {
                    ConnStatus::Closing
                },
                ..old(self)@
            }),
    {
        if !registered {
            self.status = ConnStatus::Closing;
        }
    }

    /// Brings the registration in line with the state of the backend.
    ///
    /// A closing backend leaves the poller and a closed one is left alone.
    /// A live one wants to write exactly when bytes are pending and to read
    /// exactly when `readable` says that the tunnel can take more; where
    /// that would leave nothing, it wants the other. It registers again
    /// when its interest had to change.
    pub fn reregister(&mut self, readable: bool) -> (action: PollAction)
        ensures
            old(self)@.status == ConnStatus::Closing ==> action == PollAction::Deregister
                && final(self)@ == old(self)@,
            old(self)@.status == ConnStatus::Closed ==> action == PollAction::Keep && final(self)@
                == old(self)@,
            old(self)@.status.alive() ==> final(self)@ == (UdpBackendModel {
                interest: spec_target_interest(readable, old(self)@.pending.len() > 0),
                ..old(self)@
            }) && action == (if spec_interest_changed(
                old(self)@.interest,
                readable,
                old(self)@.pending.len() > 0,
            ) {
                PollAction::Reregister(
                    spec_target_interest(readable, old(self)@.pending.len() > 0),
                )
            } else {
                PollAction::Keep
            }),
    {
        match self.status {
            ConnStatus::Closing => PollAction::Deregister,
            ConnStatus::Closed => PollAction::Keep,
            _ => {
                let mut changed = false;
                let empty = self.send_buffer.is_empty();
                if !empty && !self.interest.is_writable() {
                    self.interest = self.interest.union(Interest::Writable);
                    changed = true;
                }
                if empty && self.interest.is_writable() {
                    self.interest = match self.interest.remove(Interest::Writable) {
                        Some(rest) => rest,
                        None => Interest::Readable,
                    };
                    changed = true;
                }
                if readable && !self.interest.is_readable() {
                    self.interest = self.interest.union(Interest::Readable);
                    changed = true;
                }
                if !readable && self.interest.is_readable() {
                    self.interest = match self.interest.remove(Interest::Readable) {
                        Some(rest) => rest,
                        None => Interest::Writable,
                    };
                    changed = true;
                }
                if changed {
                    PollAction::Reregister(self.interest)
                } else {
                    PollAction::Keep
                }
            },
        }
    }

    /// Finishes a closing backend: it becomes closed, and the result says
    /// that its socket has to leave the poller.
    pub fn check_close(&mut self) -> (deregister: bool)
        ensures
            deregister == (old(self)@.status == ConnStatus::Closing),
            final(self)@ == (UdpBackendModel {
                status: if old(self)@.status == ConnStatus::Closing {
                    ConnStatus::Closed
                } else {
                    old(self)@.status
                },
                ..old(self)@
            }),
    {
        if self.status == ConnStatus::Closing {
            self.status = ConnStatus::Closed;
            true
        } else {
            false
        }
    }

    /// Ends the association once what is pending has been sent.
    ///
    /// With nothing pending the backend is closed at once and its socket
    /// has to leave the poller. Otherwise it shuts down: it only waits to
    /// write, and the socket has to be registered again for that.
    pub fn shutdown(&mut self) -> (action: PollAction)
        ensures
            old(self)@.pending.len() == 0 ==> action == PollAction::Deregister && final(self)@ == (
            UdpBackendModel { status: ConnStatus::Closed, ..old(self)@ }),
            old(self)@.pending.len() > 0 ==> action == PollAction::Reregister(Interest::Writable)
                && final(self)@ == (UdpBackendModel {
                status: ConnStatus::Shutdown,
                interest: Interest::Writable,
                ..old(self)@
            }),
    {
        if self.send_buffer.is_empty() {
            self.status = ConnStatus::Closing;
            self.check_close();
            return PollAction::Deregister;
        }
        self.interest = Interest::Writable;
        self.status = ConnStatus::Shutdown;
        PollAction::Reregister(Interest::Writable)
    }

    pub fn status(&self) -> (status: ConnStatus)
        ensures
            status == self@.status,
    {
        self.status
    }

    /// Whether the tunnel may hand over more bytes: fewer than
    /// `MAX_BUFFER_SIZE` are pending.
    pub fn writable(&self) -> (ok: bool)
        ensures
            ok == (self@.pending.len() < MAX_BUFFER_SIZE),
    {
        self.send_buffer.len() < MAX_BUFFER_SIZE
    }

    pub fn index(&self) -> (index: usize)
        ensures
            index == self@.index,
    {
        self.index
    }

    pub fn token(&self) -> (token: usize)
        ensures
            token == self@.token,
    {
        self.token
    }

    pub fn interest(&self) -> (interest: Interest)
        ensures
            interest == self@.interest,
    {
        self.interest
    }

    pub fn bytes_read(&self) -> (n: usize)
        ensures
            n == self@.bytes_read,
    {
        self.bytes_read
    }

    pub fn bytes_sent(&self) -> (n: usize)
        ensures
            n == self@.bytes_sent,
    {
        self.bytes_sent
    }

    /// The peer that the last datagram came from.
    pub fn remote_addr(&self) -> (peer: &Address)
        ensures
            peer@ == self@.remote_addr,
    {
        &self.remote_addr
    }
}

impl Backend for UdpBackend {
    closed spec fn idle_limit(&self) -> u64 {
        self.timeout
    }

    closed spec fn pending(&self) -> Seq<u8> {
        buffer_bytes(self.send_buffer)
    }

    fn get_timeout(&self) -> (limit: u64)
        ensures
            limit == self@.timeout,
    {
        self.timeout
    }

    /// The backend reads when its socket is readable and sends what is
    /// pending when it is writable.
    fn ready(&self, event: &Event) -> (plan: ReadyPlan)
        ensures
            plan == (ReadyPlan { read: event.readable, flush: event.writable }),
    {
        ReadyPlan { read: event.readable, flush: event.writable }
    }

    /// The bytes join the end of what is pending; nothing else changes, and
    /// nothing is sent before `do_send` is asked.
    fn dispatch(&mut self, data: &[u8])
        ensures
            final(self)@ == (UdpBackendModel {
                pending: old(self)@.pending + data@,
                ..old(self)@
            }),
    {
        self.send_buffer.extend_from_slice(data);
    }
}

impl UdpBackend {
    /// The trait's view of the backend agrees with the backend's own.
    pub proof fn lemma_backend_view(&self)
        ensures
            self.idle_limit() == self@.timeout,
            self.pending() == self@.pending,
    {
    }
}

} // verus!
