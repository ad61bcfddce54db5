use crate::status::{ConnStatus, Interest, PollAction};
use vstd::prelude::*;

verus! {

/// The life of one TLS connection to the relay, as far as the event loop
/// steers it: its place in the poller and its status. The session and the
/// socket themselves live outside.
#[derive(Clone, Copy, Debug, PartialEq, Eq, Structural)]
pub struct TlsConn {
    pub index: usize,
    /// Token under which the socket is registered.
    pub token: usize,
    pub status: ConnStatus,
    /// The readiness that the socket is registered for.
    pub interest: Interest,
}

impl TlsConn {
    /// A connection whose socket has just been opened: it is connecting,
    /// and is to be registered for reading and writing.
    pub fn new(index: usize, token: usize) -> (conn: TlsConn)
        ensures
            conn == (TlsConn {
                index,
                token,
                status: ConnStatus::Connecting,
                interest: Interest::Both,
            }),
    {
        TlsConn { index, token, status: ConnStatus::Connecting, interest: Interest::Both }
    }

    /// The status after the poller answered a registration: a refusal
    /// makes a live connection closing.
    pub open spec fn spec_register(self, registered: bool) -> TlsConn {
        if !registered && self.status.alive() {
            TlsConn { status: ConnStatus::Closing, ..self }
        } else {
            self
        }
    }

    /// Takes note of whether the poller took the socket. The result says
    /// whether the connection can be used.
    pub fn register(&mut self, registered: bool) -> (ok: bool)
        ensures
            *final(self) == old(self).spec_register(registered),
            ok == (registered && old(self).status.alive()),
            old(self).status.may_become(final(self).status),
    {
        if !registered && self.status.is_alive() {
            self.status = ConnStatus::Closing;
        }
        registered && self.status.is_alive()
    }

    /// Takes note that the handshake has finished: a connecting connection
    /// is established.
    pub fn handshake_done(&mut self)
        ensures
            *final(self) == (TlsConn {
                status: if old(self).status == ConnStatus::Connecting
                    || old(self).status == ConnStatus::PreConnecting {
                    ConnStatus::Established
                } else {
                    old(self).status
                },
                ..*old(self)
            }),
            old(self).status.may_become(final(self).status),
    {
        if self.status == ConnStatus::Connecting || self.status == ConnStatus::PreConnecting {
            self.status = ConnStatus::Established;
        }
    }

    /// Takes note of whether the session took plaintext that was written
    /// to it: a session that is over its limits makes a live connection
    /// closing. The result says whether the plaintext was taken.
    pub fn write_session(&mut self, accepted: bool) -> (ok: bool)
        ensures
            *final(self) == old(self).spec_register(accepted),
            ok == accepted,
            old(self).status.may_become(final(self).status),
    {
        if !accepted && self.status.is_alive() {
            self.status = ConnStatus::Closing;
        }
        accepted
    }

    /// Takes note of how flushing the session to the socket ended: a socket
    /// that would block is watched for becoming writable, and the result
    /// says whether the registration has to change for that.
    pub fn do_send(&mut self, blocked: bool) -> (action: PollAction)
        ensures
            final(self).index == old(self).index,
            final(self).token == old(self).token,
            final(self).status == old(self).status,
            final(self).interest == (if blocked && old(self).status.alive() {
                old(self).interest.union_with(Interest::Writable)
            } else {
                old(self).interest
            }),
            action == (if final(self).interest != old(self).interest {
                PollAction::Reregister(final(self).interest)
            } else {
                PollAction::Keep
            }),
    {
        if blocked && self.status.is_alive() && !self.interest.is_writable() {
            self.interest = Interest::Both;
            return PollAction::Reregister(Interest::Both);
        }
        PollAction::Keep
    }

    /// Begins to close the connection in good order: a connection that is
    /// established or still connecting shuts down.
    pub fn shutdown(&mut self)
        ensures
            *final(self) == (TlsConn {
                status: if old(self).status.alive() {
                    ConnStatus::Shutdown
                } else {
                    old(self).status
                },
                ..*old(self)
            }),
            old(self).status.may_become(final(self).status),
    {
        if self.status.is_alive() {
            self.status = ConnStatus::Shutdown;
        }
    }

    /// The status after a look at the connection: one that is shutting
    /// down and has nothing left in either direction, and one that is
    /// closing, are closed.
    pub open spec fn spec_check_status(self, drained: bool) -> ConnStatus {
        if self.status == ConnStatus::Closing || (self.status == ConnStatus::Shutdown
            && drained) {
            ConnStatus::Closed
        } else {
            self.status
        }
    }

    /// Finishes a connection that is done: it becomes closed, and the
    /// result says that its socket has to leave the poller.
    pub fn check_status(&mut self, drained: bool) -> (deregister: bool)
        ensures
            *final(self) == (TlsConn {
                status: old(self).spec_check_status(drained),
                ..*old(self)
            }),
            deregister == (final(self).status == ConnStatus::Closed && old(self).status
                != ConnStatus::Closed),
            old(self).status.may_become(final(self).status),
    {
        if self.status == ConnStatus::Shutdown && drained {
            self.status = ConnStatus::Closing;
        }
        if self.status == ConnStatus::Closing {
            self.status = ConnStatus::Closed;
            true
        } else {
            false
        }
    }

    /// Whether the connection is past its handshake and not closing.
    pub fn is_established(&self) -> (yes: bool)
        ensures
            yes == (self.status == ConnStatus::Established),
    {
        self.status == ConnStatus::Established
    }
}

/// A connection never moves back: whatever happens to it, its status stays
/// where it is or moves on towards `Closed`, and a closed connection stays
/// closed.
pub proof fn law_status_moves_forward(conn: TlsConn, flag: bool)
    ensures
        conn.status.may_become(conn.spec_register(flag).status),
        conn.status.may_become(conn.spec_check_status(flag)),
        conn.status == ConnStatus::Closed ==> conn.spec_register(flag).status == ConnStatus::Closed
            && conn.spec_check_status(flag) == ConnStatus::Closed,
{
}

} // verus!
