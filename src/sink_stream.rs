use vstd::prelude::*;

use crate::error::{Error, NativeError};
use crate::message::{Frame, Multipart};
use crate::readiness::{Direction, Reconciled, reconcile, has_bit, POLLIN, POLLOUT};
use crate::recv::{RecvMachine, RecvStep};
use crate::send::SendStep;
use crate::sink::{AsyncSink, SinkBuffer};

verus! {

/// One socket used both as a bounded-buffer writer and as a stream of
/// incoming multiparts.
///
/// The socket has one readiness signal for both directions, so each arm
/// records the task that polled it first, and an arm that sees the other
/// direction ready wakes the other arm's task.
pub struct MultipartSinkStream<S, T> {
    pub(crate) sock: S,
    pub(crate) sink: SinkBuffer,
    pub(crate) stream: RecvMachine,
    pub(crate) sink_task: Option<T>,
    pub(crate) stream_task: Option<T>,
}

impl<S, T> MultipartSinkStream<S, T> {
    pub open(crate) spec fn wf(&self) -> bool {
        self.sink.wf()
    }

    pub open(crate) spec fn socket(&self) -> S {
        self.sock
    }

    pub open(crate) spec fn sink_arm(&self) -> SinkBuffer {
        self.sink
    }

    pub open(crate) spec fn stream_arm(&self) -> RecvMachine {
        self.stream
    }

    pub open(crate) spec fn sink_waker(&self) -> Option<T> {
        self.sink_task
    }

    pub open(crate) spec fn stream_waker(&self) -> Option<T> {
        self.stream_task
    }

    /// A duplex over `sock` whose sink holds up to `buffer_size` unsent
    /// multiparts; no task is registered yet.
    pub fn new(sock: S, buffer_size: usize) -> (r: MultipartSinkStream<S, T>)
        ensures
            r.wf(),
            r.socket() == sock,
            r.sink_arm().capacity() == buffer_size,
            r.sink_arm().outstanding() == 0,
            !r.sink_arm().in_tick(),
            r.sink_arm().delivered().len() == 0,
            r.sink_arm().accepted().len() == 0,
            r.sink_arm().intact(),
            !r.stream_arm().in_tick(),
            r.stream_arm().partial().len() == 0,
            r.sink_waker() is None,
            r.stream_waker() is None,
    {
        MultipartSinkStream {
            sock,
            sink: SinkBuffer::new(buffer_size),
            stream: RecvMachine::new(),
            sink_task: None,
            stream_task: None,
        }
    }

    /// The socket, for its native I/O.
    pub fn sock(&self) -> (r: &S)
        ensures
            *r == self.socket(),
    {
        &self.sock
    }

    /// How many multiparts the sink arm holds, accepted and not yet sent.
    pub fn len(&self) -> (r: usize)
        requires
            self.wf(),
        ensures
            r == self.sink_arm().outstanding(),
    {
        self.sink.len()
    }

    /// How many frames of the next multipart have been received.
    pub fn partial_len(&self) -> (r: usize)
        ensures
            r == self.stream_arm().partial().len(),
    {
        self.stream.partial_len()
    }

    /// Gives the socket back.
    pub fn into_socket(self) -> (r: S)
        ensures
            r == self.socket(),
    {
        self.sock
    }

    /// Records `task` as the sink arm's task unless one is recorded already.
    pub fn register_sink(&mut self, task: T)
        ensures
            final(self).sink_waker() == if old(self).sink_waker() is Some {
                old(self).sink_waker()
            } else {
                Some(task)
            },
            final(self).stream_waker() == old(self).stream_waker(),
            final(self).sink_arm() == old(self).sink_arm(),
            final(self).stream_arm() == old(self).stream_arm(),
            final(self).socket() == old(self).socket(),
    {
        if self.sink_task.is_none() {
            self.sink_task = Some(task);
        }
    }

    /// Records `task` as the stream arm's task unless one is recorded already.
    pub fn register_stream(&mut self, task: T)
        ensures
            final(self).stream_waker() == if old(self).stream_waker() is Some {
                old(self).stream_waker()
            } else {
                Some(task)
            },
            final(self).sink_waker() == old(self).sink_waker(),
            final(self).sink_arm() == old(self).sink_arm(),
            final(self).stream_arm() == old(self).stream_arm(),
            final(self).socket() == old(self).socket(),
    {
        if self.stream_task.is_none() {
            self.stream_task = Some(task);
        }
    }

    /// The task to wake when the sink arm sees the socket ready to receive.
    pub fn stream_task(&self) -> (r: Option<&T>)
        ensures
            r == match self.stream_waker() {
                Some(t) => Some(&t),
                None => None,
            },
    {
        self.stream_task.as_ref()
    }

    /// The task to wake when the stream arm sees the socket ready to send.
    pub fn sink_task(&self) -> (r: Option<&T>)
        ensures
            r == match self.sink_waker() {
                Some(t) => Some(&t),
                None => None,
            },
    {
        self.sink_task.as_ref()
    }

    /// The sink arm's readiness step: records `task` as the sink arm's task
    /// unless one is recorded, and reconciles the native event mask for a
    /// send. The stream arm's task is to be woken when the mask reports the
    /// socket readable and that task is recorded.
    pub fn sink_ready(&mut self, task: T, events: i16) -> (r: Reconciled)
        ensures
            final(self).sink_waker() == if old(self).sink_waker() is Some {
                old(self).sink_waker()
            } else {
                Some(task)
            },
            final(self).stream_waker() == old(self).stream_waker(),
            final(self).sink_arm() == old(self).sink_arm(),
            final(self).stream_arm() == old(self).stream_arm(),
            final(self).socket() == old(self).socket(),
            r.proceed == has_bit(events, POLLOUT),
            r.clear_armed == !r.proceed,
            r.notify_peer == (old(self).stream_waker() is Some && has_bit(events, POLLIN)),
    {
        self.register_sink(task);
        reconcile(Direction::Write, events, self.stream_task.is_some())
    }

    /// The stream arm's readiness step: records `task` as the stream arm's
    /// task unless one is recorded, and reconciles the native event mask
    /// for a receive. The sink arm's task is to be woken when the mask
    /// reports the socket writable and that task is recorded.
    pub fn stream_ready(&mut self, task: T, events: i16) -> (r: Reconciled)
        ensures
            final(self).stream_waker() == if old(self).stream_waker() is Some {
                old(self).stream_waker()
            } else {
                Some(task)
            },
            final(self).sink_waker() == old(self).sink_waker(),
            final(self).sink_arm() == old(self).sink_arm(),
            final(self).stream_arm() == old(self).stream_arm(),
            final(self).socket() == old(self).socket(),
            r.proceed == has_bit(events, POLLIN),
            r.clear_armed == !r.proceed,
            r.notify_peer == (old(self).sink_waker() is Some && has_bit(events, POLLOUT)),
    {
        self.register_stream(task);
        reconcile(Direction::Read, events, self.sink_task.is_some())
    }

    pub fn is_sending(&self) -> (r: bool)
        ensures
            r == self.sink_arm().in_tick(),
    {
        self.sink.is_in_tick()
    }

    pub fn is_receiving(&self) -> (r: bool)
        ensures
            r == self.stream_arm().in_tick(),
    {
        self.stream.is_in_tick()
    }

    /// Offers a multipart to the sink arm; see `SinkBuffer::start_send`.
    pub fn start_send(&mut self, multipart: Multipart) -> (r: AsyncSink)
        requires
            old(self).wf(),
        ensures
            final(self).sink_waker() == old(self).sink_waker(),
            final(self).stream_waker() == old(self).stream_waker(),
            final(self).socket() == old(self).socket(),
            final(self).stream_arm() == old(self).stream_arm(),
            SinkBuffer::start_send_post(old(self).sink_arm(), final(self).sink_arm(), multipart, r),
    {
        self.sink.start_send(multipart)
    }

    /// Drives the sink arm; see `SinkBuffer::poll_complete`.
    pub fn poll_complete(&mut self) -> (r: Result<SendStep, Error>)
        requires
            old(self).wf(),
        ensures
            final(self).sink_waker() == old(self).sink_waker(),
            final(self).stream_waker() == old(self).stream_waker(),
            final(self).socket() == old(self).socket(),
            final(self).stream_arm() == old(self).stream_arm(),
            SinkBuffer::poll_complete_post(old(self).sink_arm(), final(self).sink_arm(), r),
    {
        self.sink.poll_complete()
    }

    /// Reports a send outcome to the sink arm; see `SinkBuffer::on_send`.
    pub fn on_send(&mut self, outcome: Result<(), NativeError>) -> (r: Result<SendStep, Error>)
        requires
            old(self).wf(),
            old(self).sink_arm().in_tick(),
        ensures
            final(self).sink_waker() == old(self).sink_waker(),
            final(self).stream_waker() == old(self).stream_waker(),
            final(self).socket() == old(self).socket(),
            final(self).stream_arm() == old(self).stream_arm(),
            SinkBuffer::on_send_post(old(self).sink_arm(), final(self).sink_arm(), outcome, r),
    {
        self.sink.on_send(outcome)
    }

    /// Polls the stream arm; see `RecvMachine::poll_fetch`.
    pub fn poll(&mut self) -> (r: Result<RecvStep, Error>)
        ensures
            final(self).sink_waker() == old(self).sink_waker(),
            final(self).stream_waker() == old(self).stream_waker(),
            final(self).socket() == old(self).socket(),
            final(self).sink_arm() == old(self).sink_arm(),
            final(self).stream_arm().partial() == old(self).stream_arm().partial(),
            old(self).stream_arm().in_tick() ==> r == Err::<RecvStep, Error>(Error::Reentrancy)
                && final(self).stream_arm() == old(self).stream_arm(),
            !old(self).stream_arm().in_tick() ==> r is Ok && r->Ok_0 is Fetch
                && final(self).stream_arm().in_tick(),
    {
        self.stream.poll_fetch()
    }

    /// Reports a receive outcome to the stream arm; see `RecvMachine::on_recv`.
    pub fn on_recv(&mut self, outcome: Result<Frame, NativeError>) -> (r: Result<RecvStep, Error>)
        requires
            old(self).stream_arm().in_tick(),
        ensures
            final(self).sink_waker() == old(self).sink_waker(),
            final(self).stream_waker() == old(self).stream_waker(),
            final(self).socket() == old(self).socket(),
            final(self).sink_arm() == old(self).sink_arm(),
            outcome is Ok && outcome->Ok_0.more ==> {
                &&& r is Ok && r->Ok_0 is Fetch && final(self).stream_arm().in_tick()
                &&& final(self).stream_arm().partial() == old(self).stream_arm().partial().push(
                    outcome->Ok_0.data@,
                )
            },
            outcome is Ok && !outcome->Ok_0.more ==> {
                &&& r is Ok && r->Ok_0 is Ready
                &&& r->Ok_0->Ready_0@ == old(self).stream_arm().partial().push(outcome->Ok_0.data@)
                &&& !final(self).stream_arm().in_tick() && final(self).stream_arm().partial().len() == 0
            },
            outcome == Err::<Frame, NativeError>(NativeError::WouldBlock) ==> r is Ok && r->Ok_0 is Suspended,
            outcome is Err && !outcome->Err_0.spec_is_transient() ==> r == Err::<RecvStep, Error>(
                outcome->Err_0.spec_surface(),
            ),
            outcome is Err ==> !final(self).stream_arm().in_tick() && final(self).stream_arm().partial()
                == old(self).stream_arm().partial(),
    {
        self.stream.on_recv(outcome)
    }
}

} // verus!
