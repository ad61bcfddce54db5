use crate::buffer::buffer_bytes;
use crate::udp_backend::MAX_BUFFER_SIZE;
use bytes::BytesMut;
use vstd::prelude::*;

verus! {

/// One direction of a flow: bytes that came from one peer wait here until
/// the other peer takes them. The pipe remembers everything that went in
/// and everything that came out, so that its order can be spoken of.
pub struct Pipe {
    buffer: BytesMut,
    received: Ghost<Seq<u8>>,
    emitted: Ghost<Seq<u8>>,
}

/// Mathematical value of a [`Pipe`].
pub struct PipeModel {
    /// The bytes that wait to be taken, first to last.
    pub pending: Seq<u8>,
    /// Every byte that was ever put in, in order.
    pub received: Seq<u8>,
    /// Every byte that was ever taken out, in order.
    pub emitted: Seq<u8>,
}

impl PipeModel {
    /// What went in is what came out followed by what still waits.
    pub open spec fn wf(self) -> bool {
        self.received == self.emitted + self.pending
    }
}

impl View for Pipe {
    type V = PipeModel;

    closed spec fn view(&self) -> PipeModel {
        PipeModel {
            pending: buffer_bytes(self.buffer),
            received: self.received@,
            emitted: self.emitted@,
        }
    }
}

impl Pipe {
    pub open spec fn wf(&self) -> bool {
        self@.wf()
    }

    /// A pipe that nothing has passed through.
    pub fn new() -> (pipe: Pipe)
        ensures
            pipe.wf(),
            pipe@ == (PipeModel {
                pending: Seq::empty(),
                received: Seq::empty(),
                emitted: Seq::empty(),
            }),
    {
        let pipe = Pipe {
            buffer: BytesMut::new(),
            received: Ghost(Seq::empty()),
            emitted: Ghost(Seq::empty()),
        };
        assert(pipe@.received =~= pipe@.emitted + pipe@.pending);
        pipe
    }

    /// Puts bytes in behind those that wait.
    pub fn push(&mut self, data: &[u8])
        requires
            old(self).wf(),
            old(self)@.pending.len() + data@.len() <= usize::MAX,
        ensures
            final(self).wf(),
            final(self)@ == (PipeModel {
                pending: old(self)@.pending + data@,
                received: old(self)@.received + data@,
                emitted: old(self)@.emitted,
            }),
    {
        self.buffer.extend_from_slice(data);
        self.received = Ghost(self.received@ + data@);
        assert(self@.received =~= self@.emitted + self@.pending);
    }

    /// The bytes that wait to be taken, first to last.
    pub fn pending(&self) -> (bytes: &[u8])
        ensures
            bytes@ == self@.pending,
    {
        self.buffer.as_ref()
    }

    /// The number of bytes that wait.
    pub fn len(&self) -> (n: usize)
        ensures
            n == self@.pending.len(),
    {
        self.buffer.len()
    }

    pub fn is_empty(&self) -> (empty: bool)
        ensures
            empty == (self@.pending.len() == 0),
    {
        self.buffer.is_empty()
    }

    /// Whether the pipe takes more: fewer than `MAX_BUFFER_SIZE` bytes wait.
    pub fn writable(&self) -> (ok: bool)
        ensures
            ok == (self@.pending.len() < MAX_BUFFER_SIZE),
    {
        self.buffer.len() < MAX_BUFFER_SIZE
    }

    /// Takes note that the other peer took the first `n` bytes that waited.
    /// When fewer wait, all of them count as taken.
    pub fn consume(&mut self, n: usize) -> (taken: usize)
        requires
            old(self).wf(),
        ensures
            final(self).wf(),
            taken == (if n <= old(self)@.pending.len() {
                n as int
            } else {
                old(self)@.pending.len() as int
            }),
            final(self)@ == (PipeModel {
                pending: old(self)@.pending.skip(taken as int),
                received: old(self)@.received,
                emitted: old(self)@.emitted + old(self)@.pending.take(taken as int),
            }),
    {
        let len = self.buffer.len();
        let taken = if n <= len {
            n
        } else {
            len
        };
        let ghost before = buffer_bytes(self.buffer);
        let _ = self.buffer.split_to(taken);
        self.emitted = Ghost(self.emitted@ + before.take(taken as int));
        assert(self@.received =~= self@.emitted + self@.pending) by {
            assert(before =~= before.take(taken as int) + before.skip(taken as int));
        }
        taken
    }
}

/// What came out of a pipe is the beginning of what went in, in the same
/// order and with nothing left out; once nothing waits, it is all of it.
pub proof fn law_pipe_keeps_order(pipe: PipeModel)
    requires
        pipe.wf(),
    ensures
        pipe.emitted.len() <= pipe.received.len(),
        pipe.emitted == pipe.received.take(pipe.emitted.len() as int),
        pipe.pending == pipe.received.skip(pipe.emitted.len() as int),
        pipe.pending.len() == 0 ==> pipe.emitted == pipe.received,
{
    assert(pipe.received.take(pipe.emitted.len() as int) =~= pipe.emitted);
    assert(pipe.received.skip(pipe.emitted.len() as int) =~= pipe.pending);
    if pipe.pending.len() == 0 {
        assert(pipe.emitted + pipe.pending =~= pipe.emitted);
    }
}

} // verus!
