use vstd::prelude::*;

use std::collections::VecDeque;

use crate::error::{Error, NativeError};
use crate::message::{Multipart, wire, wire_all, views, lemma_wire_head, lemma_wire_all_push};
use crate::send::{SendMachine, SendStep};

verus! {

/// What a sink answers to an offered multipart.
pub enum AsyncSink {
    /// The multipart was accepted into the buffer.
    Ready,
    /// The buffer is full: the multipart is handed back as it was.
    NotReady(Multipart),
}

/// A bounded queue of outgoing multiparts feeding one send machine.
///
/// At most `buffer_size` multiparts are accepted and not yet sent: the
/// queued ones and the one the send machine is working on.
pub struct SinkBuffer {
    pub(crate) send: SendMachine,
    pub(crate) queue: VecDeque<Multipart>,
    pub(crate) buffer_size: usize,
    /// Every multipart accepted, in order.
    pub(crate) accepted: Ghost<Seq<Seq<Seq<u8>>>>,
    /// No native error has dropped a multipart.
    pub(crate) intact: Ghost<bool>,
}

impl SinkBuffer {
    /// Accepted multiparts not yet fully sent.
    pub open(crate) spec fn outstanding(&self) -> nat {
        self.queue@.len() + if self.send.is_busy() { 1nat } else { 0nat }
    }

    /// The frames still to be sent, with their more-flags, in order.
    pub open(crate) spec fn pending_frames(&self) -> Seq<(Seq<u8>, bool)> {
        wire(self.send.remaining()) + wire_all(views(self.queue@))
    }

    /// The frames the socket has accepted, with their more-flags, in order.
    pub open(crate) spec fn delivered(&self) -> Seq<(Seq<u8>, bool)> {
        self.send.delivered()
    }

    pub open(crate) spec fn accepted(&self) -> Seq<Seq<Seq<u8>>> {
        self.accepted@
    }

    pub open(crate) spec fn intact(&self) -> bool {
        self.intact@
    }

    pub open(crate) spec fn capacity(&self) -> nat {
        self.buffer_size as nat
    }

    pub open(crate) spec fn in_tick(&self) -> bool {
        self.send.in_tick()
    }

    pub open(crate) spec fn wf(&self) -> bool {
        &&& self.send.wf()
        &&& self.outstanding() <= self.buffer_size
        &&& self.intact@ ==> wire_all(self.accepted@) == self.delivered() + self.pending_frames()
    }

    /// How `start_send` relates the buffer before, the buffer after and its result.
    pub open(crate) spec fn start_send_post(
        pre: SinkBuffer,
        post: SinkBuffer,
        multipart: Multipart,
        r: AsyncSink,
    ) -> bool {
        &&& post.wf()
        &&& post.capacity() == pre.capacity()
        &&& post.in_tick() == pre.in_tick()
        &&& post.delivered() == pre.delivered()
        &&& post.intact() == pre.intact()
        &&& pre.outstanding() < pre.capacity() ==> {
            &&& r is Ready
            &&& post.outstanding() == pre.outstanding() + 1
            &&& post.accepted() == pre.accepted().push(multipart@)
            &&& post.pending_frames() == pre.pending_frames() + wire(multipart@)
        }
        &&& pre.outstanding() >= pre.capacity() ==> {
            &&& r == AsyncSink::NotReady(multipart)
            &&& post == pre
        }
    }

    /// How `poll_complete` relates the buffer before, the buffer after and its result.
    pub open(crate) spec fn poll_complete_post(
        pre: SinkBuffer,
        post: SinkBuffer,
        r: Result<SendStep, Error>,
    ) -> bool {
        &&& post.wf()
        &&& post.capacity() == pre.capacity()
        &&& post.delivered() == pre.delivered()
        &&& post.accepted() == pre.accepted()
        &&& post.intact() == pre.intact()
        &&& pre.in_tick() ==> r == Err::<SendStep, Error>(Error::Reentrancy) && post == pre
        &&& !pre.in_tick() ==> post.pending_frames() == pre.pending_frames()
        &&& !pre.in_tick() && pre.pending_frames().len() == 0 ==> {
            &&& r is Ok && r->Ok_0 is Complete
            &&& !post.in_tick() && post.outstanding() == 0
        }
        &&& !pre.in_tick() && pre.pending_frames().len() > 0 ==> {
            &&& r is Ok && r->Ok_0 is Transmit
            &&& post.in_tick()
            &&& r->Ok_0->Transmit_0@ == pre.pending_frames()[0]
        }
    }

    /// How `on_send` relates the buffer before, the buffer after and its result.
    pub open(crate) spec fn on_send_post(
        pre: SinkBuffer,
        post: SinkBuffer,
        outcome: Result<(), NativeError>,
        r: Result<SendStep, Error>,
    ) -> bool {
        &&& post.wf()
        &&& !post.in_tick() || (r is Ok && r->Ok_0 is Transmit)
        &&& post.capacity() == pre.capacity()
        &&& post.accepted() == pre.accepted()
        &&& outcome is Ok ==> {
            &&& post.delivered() == pre.delivered().push(pre.pending_frames()[0])
            &&& post.pending_frames() == pre.pending_frames().drop_first()
            &&& post.intact() == pre.intact()
            &&& post.pending_frames().len() == 0 ==> r is Ok && r->Ok_0 is Complete
                && post.outstanding() == 0
            &&& post.pending_frames().len() > 0 ==> r is Ok && r->Ok_0 is Transmit
                && post.in_tick()
                && r->Ok_0->Transmit_0@ == post.pending_frames()[0]
        }
        &&& outcome == Err::<(), NativeError>(NativeError::WouldBlock) ==> {
            &&& r is Ok && r->Ok_0 is Suspended
            &&& post.delivered() == pre.delivered()
            &&& post.pending_frames() == pre.pending_frames()
            &&& post.outstanding() == pre.outstanding()
            &&& post.intact() == pre.intact()
        }
        &&& outcome is Err && !outcome->Err_0.spec_is_transient() ==> {
            &&& r == Err::<SendStep, Error>(outcome->Err_0.spec_surface())
            &&& post.delivered() == pre.delivered()
            &&& pre.pending_frames() == wire(pre.current()) + post.pending_frames()
            &&& post.outstanding() + 1 == pre.outstanding()
            &&& !post.intact()
        }
    }

    /// An empty buffer holding up to `buffer_size` multiparts.
    pub fn new(buffer_size: usize) -> (r: SinkBuffer)
        ensures
            r.wf(),
            r.capacity() == buffer_size,
            !r.in_tick(),
            r.outstanding() == 0,
            r.pending_frames().len() == 0,
            r.delivered().len() == 0,
            r.accepted().len() == 0,
            r.intact(),
    {
        let r = SinkBuffer {
            send: SendMachine::new(),
            queue: VecDeque::new(),
            buffer_size,
            accepted: Ghost(Seq::empty()),
            intact: Ghost(true),
        };
        assert(views(r.queue@) =~= Seq::<Seq<Seq<u8>>>::empty());
        assert(wire(r.send.remaining()) =~= Seq::<(Seq<u8>, bool)>::empty());
        assert(r.pending_frames() =~= Seq::<(Seq<u8>, bool)>::empty());
        r
    }

    /// Whether a frame handed out awaits its outcome.
    pub fn is_in_tick(&self) -> (r: bool)
        ensures
            r == self.in_tick(),
    {
        self.send.is_in_tick()
    }

    /// How many multiparts are accepted and not yet sent.
    pub fn len(&self) -> (r: usize)
        requires
            self.wf(),
        ensures
            r == self.outstanding(),
    {
        if self.send.is_ready() {
            self.queue.len()
        } else {
            self.queue.len() + 1
        }
    }

    /// Offers a multipart: it is queued when fewer than `buffer_size`
    /// multiparts are outstanding, and handed back unchanged otherwise.
    ///
    /// A caller drives `poll_complete` first, so that finished sends make room.
    pub fn start_send(&mut self, multipart: Multipart) -> (r: AsyncSink)
        requires
            old(self).wf(),
        ensures
            Self::start_send_post(*old(self), *final(self), multipart, r),
    {
        let n = self.len();
        if n >= self.buffer_size {
            return AsyncSink::NotReady(multipart);
        }
        let ghost q0 = self.queue@;
        let ghost m = multipart@;
        self.queue.push_back(multipart);
        self.accepted = Ghost(self.accepted@.push(m));
        proof {
            assert(views(self.queue@) =~= views(q0).push(m));
            lemma_wire_all_push(views(q0), m);
            lemma_wire_all_push(old(self).accepted@, m);
            assert(self.pending_frames() =~= old(self).pending_frames() + wire(m));
            if self.intact@ {
                assert(wire_all(self.accepted@) =~= self.delivered() + self.pending_frames());
            }
        }
        AsyncSink::Ready
    }

    /// Seeds the send machine from the queue while it completes, until a
    /// frame is to be sent or nothing is left.
    fn advance(&mut self, first: SendStep) -> (r: Result<SendStep, Error>)
        requires
            old(self).wf(),
            first is Complete ==> old(self).send.is_idle(),
            first is Transmit ==> old(self).in_tick() && first.transmits_head(old(self).send.remaining()),
            !(first is Suspended),
        ensures
            final(self).wf(),
            final(self).capacity() == old(self).capacity(),
            final(self).delivered() == old(self).delivered(),
            final(self).accepted() == old(self).accepted(),
            final(self).intact() == old(self).intact(),
            final(self).pending_frames() == old(self).pending_frames(),
            old(self).pending_frames().len() == 0 ==> {
                &&& r is Ok && r->Ok_0 is Complete
                &&& final(self).send.is_idle() && final(self).queue@.len() == 0
            },
            old(self).pending_frames().len() > 0 ==> {
                &&& r is Ok && r->Ok_0 is Transmit
                &&& final(self).in_tick()
                &&& r->Ok_0.transmits_head(final(self).send.remaining())
            },
    {
        let mut step = first;
        loop
            invariant
                self.wf(),
                self.buffer_size == old(self).buffer_size,
                self.delivered() == old(self).delivered(),
                self.accepted() == old(self).accepted(),
                self.intact() == old(self).intact(),
                self.pending_frames() == old(self).pending_frames(),
                step is Complete ==> self.send.is_idle(),
                step is Transmit ==> self.in_tick() && step.transmits_head(self.send.remaining()),
                !(step is Suspended),
            decreases self.queue@.len(),
        {
            match step {
                SendStep::Complete => {
                    assert(wire(self.send.remaining()) =~= Seq::<(Seq<u8>, bool)>::empty());
                    if self.queue.len() == 0 {
                        assert(views(self.queue@) =~= Seq::<Seq<Seq<u8>>>::empty());
                        assert(self.pending_frames() =~= Seq::<(Seq<u8>, bool)>::empty());
                        return Ok(SendStep::Complete);
                    }
                    let ghost q0 = self.queue@;
                    let next = self.queue.pop_front().unwrap();
                    proof {
                        assert(views(self.queue@) =~= views(q0).drop_first());
                        assert(views(q0)[0] == next@);
                    }
                    self.send.load(next);
                    match self.send.poll_flush() {
                        Ok(s) => {
                            step = s;
                        },
                        Err(e) => {
                            return Err(e);
                        },
                    }
                },
                SendStep::Transmit(f) => {
                    proof {
                        lemma_wire_head(self.send.remaining());
                    }
                    return Ok(SendStep::Transmit(f));
                },
                SendStep::Suspended => {
                    return Ok(SendStep::Suspended);
                },
            }
        }
    }

    /// Drives what is pending: the multipart in progress, then the queued
    /// ones, head first. Hands out the next frame to send, or completes when
    /// nothing is left; an empty buffer completes at once.
    pub fn poll_complete(&mut self) -> (r: Result<SendStep, Error>)
        requires
            old(self).wf(),
        ensures
            Self::poll_complete_post(*old(self), *final(self), r),
    {
        let first = match self.send.poll_flush() {
            Ok(s) => s,
            Err(e) => {
                return Err(e);
            },
        };
        let r = self.advance(first);
        proof {
            if r is Ok && r->Ok_0 is Transmit {
                lemma_wire_head(self.send.remaining());
            }
        }
        r
    }

    /// The frames of the multipart in progress that are not yet sent.
    pub open(crate) spec fn current(&self) -> Seq<Seq<u8>> {
        self.send.remaining()
    }

    /// Ends the tick of `poll_complete` or of an earlier `on_send` with what
    /// the native send reported for the frame it handed out.
    ///
    /// An accepted frame is delivered and the next one is handed out, or the
    /// buffer completes. When the socket would block, nothing changes but
    /// the end of the tick. Any other error drops the multipart in progress
    /// and surfaces; the queued ones stay.
    pub fn on_send(&mut self, outcome: Result<(), NativeError>) -> (r: Result<SendStep, Error>)
        requires
            old(self).wf(),
            old(self).in_tick(),
        ensures
            Self::on_send_post(*old(self), *final(self), outcome, r),
    {
        let ghost rem = self.send.remaining();
        proof {
            lemma_wire_head(rem);
        }
        let step = match self.send.on_send(outcome) {
            Ok(s) => s,
            Err(e) => {
                self.intact = Ghost(false);
                assert(wire(self.send.remaining()) =~= Seq::<(Seq<u8>, bool)>::empty());
                assert(self.pending_frames() =~= wire_all(views(self.queue@)));
                return Err(e);
            },
        };
        if let SendStep::Suspended = step {
            return Ok(SendStep::Suspended);
        }
        proof {
            if outcome is Ok {
                assert(old(self).pending_frames() =~= seq![wire(rem)[0]] + self.pending_frames());
                assert(self.pending_frames() =~= old(self).pending_frames().drop_first());
                if self.intact@ {
                    assert(wire_all(self.accepted@) =~= self.delivered() + self.pending_frames());
                }
            }
        }
        let r = self.advance(step);
        proof {
            if r is Ok && r->Ok_0 is Transmit {
                lemma_wire_head(self.send.remaining());
            }
        }
        r
    }
}

} // verus!

verus! {

/// A socket turned into a bounded-buffer writer of multiparts.
pub struct MultipartSink<S> {
    pub(crate) buffer: SinkBuffer,
    pub(crate) sock: S,
}

impl<S> MultipartSink<S> {
    pub open(crate) spec fn wf(&self) -> bool {
        self.buffer.wf()
    }

    pub open(crate) spec fn socket(&self) -> S {
        self.sock
    }

    pub open(crate) spec fn buf(&self) -> SinkBuffer {
        self.buffer
    }

    /// A sink over `sock` that holds up to `buffer_size` unsent multiparts.
    pub fn new(sock: S, buffer_size: usize) -> (r: MultipartSink<S>)
        ensures
            r.wf(),
            r.socket() == sock,
            r.buf().capacity() == buffer_size,
            !r.buf().in_tick(),
            r.buf().outstanding() == 0,
            r.buf().delivered().len() == 0,
            r.buf().accepted().len() == 0,
            r.buf().intact(),
    {
        MultipartSink { buffer: SinkBuffer::new(buffer_size), sock }
    }

    /// The socket, for its native I/O.
    pub fn sock(&self) -> (r: &S)
        ensures
            *r == self.socket(),
    {
        &self.sock
    }

    /// Gives the socket back.
    pub fn into_socket(self) -> (r: S)
        ensures
            r == self.socket(),
    {
        self.sock
    }

    /// How many multiparts are accepted and not yet sent.
    pub fn len(&self) -> (r: usize)
        requires
            self.wf(),
        ensures
            r == self.buf().outstanding(),
    {
        self.buffer.len()
    }

    /// Offers a multipart to the buffer; see `SinkBuffer::start_send`.
    pub fn start_send(&mut self, multipart: Multipart) -> (r: AsyncSink)
        requires
            old(self).wf(),
        ensures
            final(self).socket() == old(self).socket(),
            SinkBuffer::start_send_post(old(self).buf(), final(self).buf(), multipart, r),
    {
        self.buffer.start_send(multipart)
    }

    /// Drives what is pending; see `SinkBuffer::poll_complete`.
    pub fn poll_complete(&mut self) -> (r: Result<SendStep, Error>)
        requires
            old(self).wf(),
        ensures
            final(self).socket() == old(self).socket(),
            SinkBuffer::poll_complete_post(old(self).buf(), final(self).buf(), r),
    {
        self.buffer.poll_complete()
    }

    /// Reports the outcome of the frame handed out; see `SinkBuffer::on_send`.
    pub fn on_send(&mut self, outcome: Result<(), NativeError>) -> (r: Result<SendStep, Error>)
        requires
            old(self).wf(),
            old(self).buf().in_tick(),
        ensures
            final(self).socket() == old(self).socket(),
            SinkBuffer::on_send_post(old(self).buf(), final(self).buf(), outcome, r),
    {
        self.buffer.on_send(outcome)
    }

    /// Whether a frame handed out awaits its outcome.
    pub fn is_in_tick(&self) -> (r: bool)
        ensures
            r == self.buf().in_tick(),
    {
        self.buffer.is_in_tick()
    }
}

} // verus!
