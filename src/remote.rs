use vstd::prelude::*;

use crate::error::Error;
use crate::message::views;

use std::collections::VecDeque;
use crate::message::Multipart;
use crate::pollable::Response;
use crate::sink::AsyncSink;

verus! {

/// What the worker's reply to a send request came to, as seen by the
/// requester polling for it.
pub enum SendReply<F> {
    /// Everything was sent.
    Sent,
    /// The socket's queue was full: the multipart came back.
    Full(Multipart),
    /// The send failed.
    Failed(Error),
    /// No reply yet: the pending reply is handed back.
    Waiting(F),
}

/// What the caller must do after a step of a send through the worker.
pub enum RemoteSendStep<F> {
    /// Nothing is pending any more.
    Complete,
    /// Submit a send request for this multipart, then report its reply.
    Submit(Multipart),
    /// Poll this pending reply, then report what it came to.
    Await(F),
    /// Wait until the task is woken.
    Suspended,
}

/// The send state machine of a socket owned by the worker: a pending
/// multipart is submitted as a request, whose reply is awaited; a full
/// queue makes the multipart pending again.
pub enum RemoteSend<F> {
    Ready,
    Pending(Multipart),
    Running(F),
    Polling,
}

impl<F> RemoteSend<F> {
    pub open spec fn in_tick(&self) -> bool {
        self is Polling
    }

    /// A machine with `multipart` pending.
    pub fn new(multipart: Multipart) -> (r: RemoteSend<F>)
        ensures
            r matches RemoteSend::Pending(m) && m == multipart,
    {
        RemoteSend::Pending(multipart)
    }

    pub fn is_in_tick(&self) -> (r: bool)
        ensures
            r == self.in_tick(),
    {
        match self {
            RemoteSend::Polling => true,
            _ => false,
        }
    }

    /// Begins a tick: a machine already in one reports a reentrancy and is
    /// left as it was; an idle one is complete; a pending multipart is to
    /// be submitted; a pending reply is handed out to be polled.
    pub fn poll_flush(&mut self) -> (r: Result<RemoteSendStep<F>, Error>)
        ensures
            old(self).in_tick() ==> r == Err::<RemoteSendStep<F>, Error>(Error::Reentrancy)
                && *final(self) == *old(self),
            *old(self) is Ready ==> r == Ok::<RemoteSendStep<F>, Error>(RemoteSendStep::Complete)
                && *final(self) is Ready,
            *old(self) is Pending ==> r == Ok::<RemoteSendStep<F>, Error>(RemoteSendStep::Submit(old(self)->Pending_0))
                && final(self).in_tick(),
            *old(self) is Running ==> r == Ok::<RemoteSendStep<F>, Error>(RemoteSendStep::Await(old(self)->Running_0))
                && final(self).in_tick(),
    {
        let mut prev = RemoteSend::Polling;
        std::mem::swap(self, &mut prev);
        match prev {
            RemoteSend::Polling => Err(Error::Reentrancy),
            RemoteSend::Ready => {
                *self = RemoteSend::Ready;
                Ok(RemoteSendStep::Complete)
            },
            RemoteSend::Pending(m) => Ok(RemoteSendStep::Submit(m)),
            RemoteSend::Running(f) => Ok(RemoteSendStep::Await(f)),
        }
    }

    /// Ends the tick with what the reply came to. Sent completes; a full
    /// queue makes the multipart pending again and suspends; no reply yet
    /// keeps the pending reply and suspends; a failure leaves the machine
    /// idle and surfaces.
    pub fn on_reply(&mut self, reply: SendReply<F>) -> (r: Result<RemoteSendStep<F>, Error>)
        requires
            old(self).in_tick(),
        ensures
            match reply {
                SendReply::Sent => r == Ok::<RemoteSendStep<F>, Error>(RemoteSendStep::Complete)
                    && *final(self) is Ready,
                SendReply::Full(m) => r == Ok::<RemoteSendStep<F>, Error>(RemoteSendStep::Suspended)
                    && *final(self) == RemoteSend::<F>::Pending(m),
                SendReply::Failed(e) => r == Err::<RemoteSendStep<F>, Error>(e) && *final(self) is Ready,
                SendReply::Waiting(f) => r == Ok::<RemoteSendStep<F>, Error>(RemoteSendStep::Suspended)
                    && *final(self) == RemoteSend::Running(f),
            },
    {
        match reply {
            SendReply::Sent => {
                *self = RemoteSend::Ready;
                Ok(RemoteSendStep::Complete)
            },
            SendReply::Full(m) => {
                *self = RemoteSend::Pending(m);
                Ok(RemoteSendStep::Suspended)
            },
            SendReply::Failed(e) => {
                *self = RemoteSend::Ready;
                Err(e)
            },
            SendReply::Waiting(f) => {
                *self = RemoteSend::Running(f);
                Ok(RemoteSendStep::Suspended)
            },
        }
    }
}

/// What the worker's reply to a receive request came to.
pub enum RecvReply<F> {
    Received(Multipart),
    Failed(Error),
    Waiting(F),
}

/// What the caller must do after a step of a receive through the worker.
pub enum RemoteRecvStep<F> {
    /// A multipart arrived.
    Ready(Multipart),
    /// Submit a receive request, then report its reply.
    Submit,
    /// Poll this pending reply, then report what it came to.
    Await(F),
    /// Wait until the task is woken.
    Suspended,
}

/// The receive state machine of a socket owned by the worker.
pub enum RemoteRecv<F> {
    Pending,
    Running(F),
    Polling,
}

impl<F> RemoteRecv<F> {
    pub open spec fn in_tick(&self) -> bool {
        self is Polling
    }

    pub fn new() -> (r: RemoteRecv<F>)
        ensures
            r is Pending,
    {
        RemoteRecv::Pending
    }

    pub fn is_in_tick(&self) -> (r: bool)
        ensures
            r == self.in_tick(),
    {
        match self {
            RemoteRecv::Polling => true,
            _ => false,
        }
    }

    /// Begins a tick: a machine already in one reports a reentrancy and is
    /// left as it was; otherwise a request is to be submitted, or the
    /// pending reply is handed out to be polled.
    pub fn poll_fetch(&mut self) -> (r: Result<RemoteRecvStep<F>, Error>)
        ensures
            old(self).in_tick() ==> r == Err::<RemoteRecvStep<F>, Error>(Error::Reentrancy)
                && *final(self) == *old(self),
            *old(self) is Pending ==> r == Ok::<RemoteRecvStep<F>, Error>(RemoteRecvStep::Submit)
                && final(self).in_tick(),
            *old(self) is Running ==> r == Ok::<RemoteRecvStep<F>, Error>(RemoteRecvStep::Await(old(self)->Running_0))
                && final(self).in_tick(),
    {
        let mut prev = RemoteRecv::Polling;
        std::mem::swap(self, &mut prev);
        match prev {
            RemoteRecv::Polling => Err(Error::Reentrancy),
            RemoteRecv::Pending => Ok(RemoteRecvStep::Submit),
            RemoteRecv::Running(f) => Ok(RemoteRecvStep::Await(f)),
        }
    }

    /// Ends the tick with what the reply came to: a multipart is handed
    /// out and the machine waits for the next one; no reply yet keeps the
    /// pending reply and suspends; a failure surfaces.
    pub fn on_reply(&mut self, reply: RecvReply<F>) -> (r: Result<RemoteRecvStep<F>, Error>)
        requires
            old(self).in_tick(),
        ensures
            match reply {
                RecvReply::Received(m) => r == Ok::<RemoteRecvStep<F>, Error>(RemoteRecvStep::Ready(m))
                    && *final(self) is Pending,
                RecvReply::Failed(e) => r == Err::<RemoteRecvStep<F>, Error>(e) && *final(self) is Pending,
                RecvReply::Waiting(f) => r == Ok::<RemoteRecvStep<F>, Error>(RemoteRecvStep::Suspended)
                    && *final(self) == RemoteRecv::Running(f),
            },
    {
        match reply {
            RecvReply::Received(m) => {
                *self = RemoteRecv::Pending;
                Ok(RemoteRecvStep::Ready(m))
            },
            RecvReply::Failed(e) => {
                *self = RemoteRecv::Pending;
                Err(e)
            },
            RecvReply::Waiting(f) => {
                *self = RemoteRecv::Running(f);
                Ok(RemoteRecvStep::Suspended)
            },
        }
    }
}

/// What the caller of a one-shot send through the worker must do next.
pub enum RemoteRequestStep<F, H> {
    /// The multipart went out: the socket handle is handed back.
    Sent(H),
    /// Submit a send request for this multipart on the handle's socket.
    Submit(Multipart),
    /// Poll this pending reply, then report what it came to.
    Await(F),
    /// Wait until the task is woken.
    Suspended,
}

/// A one-shot send through the worker that hands the socket handle back
/// when done.
pub struct RemoteRequest<F, H> {
    pub(crate) state: RemoteSend<F>,
    pub(crate) handle: Option<H>,
}

impl<F, H> RemoteRequest<F, H> {
    pub open(crate) spec fn machine(&self) -> RemoteSend<F> {
        self.state
    }

    /// The handle, until it is handed back.
    pub open(crate) spec fn held(&self) -> Option<H> {
        self.handle
    }

    pub fn new(handle: H, multipart: Multipart) -> (r: RemoteRequest<F, H>)
        ensures
            r.held() == Some(handle),
            r.machine() matches RemoteSend::Pending(m) && m == multipart,
    {
        RemoteRequest { state: RemoteSend::new(multipart), handle: Some(handle) }
    }

    /// The handle of the socket, for submitting requests.
    pub fn handle(&self) -> (r: Option<&H>)
        ensures
            r == match self.held() {
                Some(h) => Some(&h),
                None => None,
            },
    {
        self.handle.as_ref()
    }

    /// Polls the send. Once the handle has been handed back every poll
    /// fails with `Reused`; otherwise see `RemoteSend::poll_flush`, with the
    /// handle handed back when the send is complete.
    pub fn poll(&mut self) -> (r: Result<RemoteRequestStep<F, H>, Error>)
        ensures
            old(self).held() is None ==> r == Err::<RemoteRequestStep<F, H>, Error>(Error::Reused)
                && *final(self) == *old(self),
            old(self).held() is Some && old(self).machine().in_tick() ==> r == Err::<
                RemoteRequestStep<F, H>,
                Error,
            >(Error::Reentrancy) && *final(self) == *old(self),
            old(self).held() is Some && old(self).machine() is Ready ==> r == Ok::<
                RemoteRequestStep<F, H>,
                Error,
            >(RemoteRequestStep::Sent(old(self).held()->Some_0)) && final(self).held() is None,
            old(self).held() is Some && old(self).machine() is Pending ==> r == Ok::<
                RemoteRequestStep<F, H>,
                Error,
            >(RemoteRequestStep::Submit(old(self).machine()->Pending_0)) && final(self).machine().in_tick()
                && final(self).held() == old(self).held(),
            old(self).held() is Some && old(self).machine() is Running ==> r == Ok::<
                RemoteRequestStep<F, H>,
                Error,
            >(RemoteRequestStep::Await(old(self).machine()->Running_0)) && final(self).machine().in_tick()
                && final(self).held() == old(self).held(),
    {
        if self.handle.is_none() {
            return Err(Error::Reused);
        }
        match self.state.poll_flush() {
            Ok(RemoteSendStep::Complete) => Ok(RemoteRequestStep::Sent(self.handle.take().unwrap())),
            Ok(RemoteSendStep::Submit(m)) => Ok(RemoteRequestStep::Submit(m)),
            Ok(RemoteSendStep::Await(f)) => Ok(RemoteRequestStep::Await(f)),
            Ok(RemoteSendStep::Suspended) => Ok(RemoteRequestStep::Suspended),
            Err(e) => Err(e),
        }
    }

    /// Reports what the reply came to; see `RemoteSend::on_reply`. Sent
    /// hands the handle back; a failure drops it with the failed send.
    pub fn on_reply(&mut self, reply: SendReply<F>) -> (r: Result<RemoteRequestStep<F, H>, Error>)
        requires
            old(self).machine().in_tick(),
            old(self).held() is Some,
        ensures
            match reply {
                SendReply::Sent => r == Ok::<RemoteRequestStep<F, H>, Error>(
                    RemoteRequestStep::Sent(old(self).held()->Some_0),
                ) && final(self).held() is None,
                SendReply::Full(m) => r is Ok && r->Ok_0 is Suspended && final(self).machine()
                    == RemoteSend::<F>::Pending(m) && final(self).held() == old(self).held(),
                SendReply::Failed(e) => r == Err::<RemoteRequestStep<F, H>, Error>(e) && final(self).held() is None,
                SendReply::Waiting(f) => r is Ok && r->Ok_0 is Suspended && final(self).machine()
                    == RemoteSend::Running(f) && final(self).held() == old(self).held(),
            },
    {
        match self.state.on_reply(reply) {
            Ok(RemoteSendStep::Complete) => Ok(RemoteRequestStep::Sent(self.handle.take().unwrap())),
            Ok(_) => Ok(RemoteRequestStep::Suspended),
            Err(e) => {
                self.handle = None;
                Err(e)
            },
        }
    }
}

/// What the caller of a one-shot receive through the worker must do next.
pub enum RemoteResponseStep<F, H> {
    /// A multipart arrived: it is handed out with the socket handle.
    Received(Multipart, H),
    /// Submit a receive request on the handle's socket.
    Submit,
    /// Poll this pending reply, then report what it came to.
    Await(F),
    /// Wait until the task is woken.
    Suspended,
}

/// A one-shot receive through the worker that hands the socket handle
/// back with the multipart.
pub struct RemoteResponse<F, H> {
    pub(crate) state: RemoteRecv<F>,
    pub(crate) handle: Option<H>,
}

impl<F, H> RemoteResponse<F, H> {
    pub open(crate) spec fn machine(&self) -> RemoteRecv<F> {
        self.state
    }

    pub open(crate) spec fn held(&self) -> Option<H> {
        self.handle
    }

    pub fn new(handle: H) -> (r: RemoteResponse<F, H>)
        ensures
            r.held() == Some(handle),
            r.machine() is Pending,
    {
        RemoteResponse { state: RemoteRecv::new(), handle: Some(handle) }
    }

    pub fn handle(&self) -> (r: Option<&H>)
        ensures
            r == match self.held() {
                Some(h) => Some(&h),
                None => None,
            },
    {
        self.handle.as_ref()
    }

    /// Polls the receive. Once the handle has been handed back every poll
    /// fails with `Reused`; otherwise see `RemoteRecv::poll_fetch`.
    pub fn poll(&mut self) -> (r: Result<RemoteResponseStep<F, H>, Error>)
        ensures
            old(self).held() is None ==> r == Err::<RemoteResponseStep<F, H>, Error>(Error::Reused)
                && *final(self) == *old(self),
            old(self).held() is Some && old(self).machine().in_tick() ==> r == Err::<
                RemoteResponseStep<F, H>,
                Error,
            >(Error::Reentrancy) && *final(self) == *old(self),
            old(self).held() is Some && old(self).machine() is Pending ==> r == Ok::<
                RemoteResponseStep<F, H>,
                Error,
            >(RemoteResponseStep::Submit) && final(self).machine().in_tick() && final(self).held() == old(self).held(),
            old(self).held() is Some && old(self).machine() is Running ==> r == Ok::<
                RemoteResponseStep<F, H>,
                Error,
            >(RemoteResponseStep::Await(old(self).machine()->Running_0)) && final(self).machine().in_tick()
                && final(self).held() == old(self).held(),
    {
        if self.handle.is_none() {
            return Err(Error::Reused);
        }
        match self.state.poll_fetch() {
            Ok(RemoteRecvStep::Submit) => Ok(RemoteResponseStep::Submit),
            Ok(RemoteRecvStep::Await(f)) => Ok(RemoteResponseStep::Await(f)),
            Ok(RemoteRecvStep::Ready(m)) => Ok(RemoteResponseStep::Received(m, self.handle.take().unwrap())),
            Ok(RemoteRecvStep::Suspended) => Ok(RemoteResponseStep::Suspended),
            Err(e) => Err(e),
        }
    }

    /// Reports what the reply came to; see `RemoteRecv::on_reply`. A
    /// multipart is handed out with the handle; a failure drops the handle
    /// with the failed receive.
    pub fn on_reply(&mut self, reply: RecvReply<F>) -> (r: Result<RemoteResponseStep<F, H>, Error>)
        requires
            old(self).machine().in_tick(),
            old(self).held() is Some,
        ensures
            match reply {
                RecvReply::Received(m) => r == Ok::<RemoteResponseStep<F, H>, Error>(
                    RemoteResponseStep::Received(m, old(self).held()->Some_0),
                ) && final(self).held() is None,
                RecvReply::Failed(e) => r == Err::<RemoteResponseStep<F, H>, Error>(e) && final(self).held() is None,
                RecvReply::Waiting(f) => r is Ok && r->Ok_0 is Suspended && final(self).machine()
                    == RemoteRecv::Running(f) && final(self).held() == old(self).held(),
            },
    {
        match self.state.on_reply(reply) {
            Ok(RemoteRecvStep::Ready(m)) => Ok(RemoteResponseStep::Received(m, self.handle.take().unwrap())),
            Ok(_) => Ok(RemoteResponseStep::Suspended),
            Err(e) => {
                self.handle = None;
                Err(e)
            },
        }
    }
}

/// A bounded-buffer writer of multiparts to a socket owned by the worker:
/// accepted multiparts are submitted one at a time, in the order accepted.
/// At most `buffer_size` multiparts are accepted and not yet sent.
pub struct RemoteSink<F> {
    pub(crate) state: RemoteSend<F>,
    pub(crate) queue: VecDeque<Multipart>,
    pub(crate) buffer_size: usize,
}

impl<F> RemoteSink<F> {
    pub open(crate) spec fn machine(&self) -> RemoteSend<F> {
        self.state
    }

    /// The accepted multiparts not yet handed to the send machine, in order.
    pub open(crate) spec fn waiting(&self) -> Seq<Seq<Seq<u8>>> {
        views(self.queue@)
    }

    pub open(crate) spec fn capacity(&self) -> nat {
        self.buffer_size as nat
    }

    /// Accepted multiparts not yet sent.
    pub open(crate) spec fn outstanding(&self) -> nat {
        self.queue@.len() + if self.state is Ready {
            0nat
        } else {
            1nat
        }
    }

    pub fn new(buffer_size: usize) -> (r: RemoteSink<F>)
        ensures
            r.machine() is Ready,
            r.waiting().len() == 0,
            r.capacity() == buffer_size,
    {
        RemoteSink { state: RemoteSend::Ready, queue: VecDeque::new(), buffer_size }
    }

    pub fn len(&self) -> (r: usize)
        requires
            self.outstanding() <= usize::MAX,
        ensures
            r == self.outstanding(),
    {
        match self.state {
            RemoteSend::Ready => self.queue.len(),
            _ => self.queue.len() + 1,
        }
    }

    pub fn is_in_tick(&self) -> (r: bool)
        ensures
            r == self.machine().in_tick(),
    {
        self.state.is_in_tick()
    }

    /// Offers a multipart: it is queued when fewer than `buffer_size`
    /// multiparts are outstanding, and handed back unchanged otherwise.
    pub fn start_send(&mut self, multipart: Multipart) -> (r: AsyncSink)
        requires
            old(self).outstanding() <= old(self).capacity(),
        ensures
            final(self).outstanding() <= final(self).capacity(),
            final(self).capacity() == old(self).capacity(),
            final(self).machine() == old(self).machine(),
            old(self).outstanding() < old(self).capacity() ==> r is Ready
                && final(self).waiting() == old(self).waiting().push(multipart@),
            old(self).outstanding() >= old(self).capacity() ==> r == AsyncSink::NotReady(multipart)
                && *final(self) == *old(self),
    {
        if self.len() >= self.buffer_size {
            return AsyncSink::NotReady(multipart);
        }
        let ghost q0 = self.queue@;
        let ghost m = multipart@;
        self.queue.push_back(multipart);
        assert(views(self.queue@) =~= views(q0).push(m));
        AsyncSink::Ready
    }

    /// Seeds the send machine with the next accepted multipart while it is
    /// idle, and begins its tick.
    fn drive(&mut self) -> (r: Result<RemoteSendStep<F>, Error>)
        requires
            !old(self).machine().in_tick(),
            old(self).outstanding() <= old(self).capacity(),
        ensures
            final(self).outstanding() <= final(self).capacity(),
            final(self).capacity() == old(self).capacity(),
            r is Ok,
            old(self).machine() is Ready && old(self).waiting().len() == 0 ==> r->Ok_0 is Complete
                && *final(self) == *old(self),
            old(self).machine() is Ready && old(self).waiting().len() > 0 ==> {
                &&& r->Ok_0 is Submit && r->Ok_0->Submit_0@ == old(self).waiting()[0]
                &&& final(self).waiting() == old(self).waiting().drop_first()
                &&& final(self).machine().in_tick()
            },
            old(self).machine() is Pending ==> r->Ok_0 == RemoteSendStep::<F>::Submit(old(self).machine()->Pending_0)
                && final(self).waiting() == old(self).waiting() && final(self).machine().in_tick(),
            old(self).machine() is Running ==> r->Ok_0 == RemoteSendStep::<F>::Await(old(self).machine()->Running_0)
                && final(self).waiting() == old(self).waiting() && final(self).machine().in_tick(),
    {
        if let RemoteSend::Ready = self.state {
            if self.queue.len() == 0 {
                return Ok(RemoteSendStep::Complete);
            }
            let ghost q0 = self.queue@;
            let next = self.queue.pop_front().unwrap();
            assert(views(self.queue@) =~= views(q0).drop_first());
            self.state = RemoteSend::Pending(next);
        }
        self.state.poll_flush()
    }

    /// Drives what is pending: a multipart in progress first, then the
    /// accepted ones in order. A poll inside a tick is a reentrancy;
    /// nothing pending completes at once.
    pub fn poll_complete(&mut self) -> (r: Result<RemoteSendStep<F>, Error>)
        requires
            old(self).outstanding() <= old(self).capacity(),
        ensures
            final(self).outstanding() <= final(self).capacity(),
            final(self).capacity() == old(self).capacity(),
            old(self).machine().in_tick() ==> r == Err::<RemoteSendStep<F>, Error>(Error::Reentrancy)
                && *final(self) == *old(self),
            old(self).machine() is Ready && old(self).waiting().len() == 0 ==> r == Ok::<RemoteSendStep<F>, Error>(
                RemoteSendStep::Complete,
            ) && *final(self) == *old(self),
            old(self).machine() is Ready && old(self).waiting().len() > 0 ==> {
                &&& r is Ok && r->Ok_0 is Submit && r->Ok_0->Submit_0@ == old(self).waiting()[0]
                &&& final(self).waiting() == old(self).waiting().drop_first()
                &&& final(self).machine().in_tick()
            },
            old(self).machine() is Pending ==> r == Ok::<RemoteSendStep<F>, Error>(
                RemoteSendStep::Submit(old(self).machine()->Pending_0),
            ) && final(self).waiting() == old(self).waiting() && final(self).machine().in_tick(),
            old(self).machine() is Running ==> r == Ok::<RemoteSendStep<F>, Error>(
                RemoteSendStep::Await(old(self).machine()->Running_0),
            ) && final(self).waiting() == old(self).waiting() && final(self).machine().in_tick(),
    {
        if self.state.is_in_tick() {
            return Err(Error::Reentrancy);
        }
        self.drive()
    }

    /// Reports what the reply to the submitted request came to. Sent goes
    /// on with the next accepted multipart, or completes; a full queue makes
    /// the multipart pending again and suspends; no reply yet suspends; a
    /// failure drops the multipart and surfaces.
    pub fn on_reply(&mut self, reply: SendReply<F>) -> (r: Result<RemoteSendStep<F>, Error>)
        requires
            old(self).machine().in_tick(),
            old(self).outstanding() <= old(self).capacity(),
        ensures
            final(self).outstanding() <= final(self).capacity(),
            final(self).capacity() == old(self).capacity(),
            match reply {
                SendReply::Sent => {
                    &&& old(self).waiting().len() == 0 ==> r == Ok::<RemoteSendStep<F>, Error>(RemoteSendStep::Complete)
                        && final(self).machine() is Ready && final(self).waiting().len() == 0
                    &&& old(self).waiting().len() > 0 ==> r is Ok && r->Ok_0 is Submit
                        && r->Ok_0->Submit_0@ == old(self).waiting()[0]
                        && final(self).waiting() == old(self).waiting().drop_first() && final(self).machine().in_tick()
                },
                SendReply::Full(m) => r == Ok::<RemoteSendStep<F>, Error>(RemoteSendStep::Suspended)
                    && final(self).machine() == RemoteSend::<F>::Pending(m) && final(self).waiting() == old(self).waiting(),
                SendReply::Failed(e) => r == Err::<RemoteSendStep<F>, Error>(e) && final(self).machine() is Ready
                    && final(self).waiting() == old(self).waiting(),
                SendReply::Waiting(f) => r == Ok::<RemoteSendStep<F>, Error>(RemoteSendStep::Suspended)
                    && final(self).machine() == RemoteSend::Running(f) && final(self).waiting() == old(self).waiting(),
            },
    {
        match self.state.on_reply(reply) {
            Ok(RemoteSendStep::Complete) => self.drive(),
            other => other,
        }
    }
}

impl Response {
    /// What a response to a send request comes to for its requester.
    pub fn into_send_reply<F>(self) -> (r: SendReply<F>)
        requires
            self is Sent || self is Full || self is Error,
        ensures
            match self {
                Response::Sent => r is Sent,
                Response::Full(m) => r == SendReply::<F>::Full(m),
                Response::Error(e) => r == SendReply::<F>::Failed(e),
                _ => false,
            },
    {
        match self {
            Response::Full(m) => SendReply::Full(m),
            Response::Error(e) => SendReply::Failed(e),
            _ => SendReply::Sent,
        }
    }

    /// What a response to a receive request comes to for its requester.
    pub fn into_recv_reply<F>(self) -> (r: RecvReply<F>)
        requires
            self is Received || self is Error,
        ensures
            match self {
                Response::Received(m) => r == RecvReply::<F>::Received(m),
                Response::Error(e) => r == RecvReply::<F>::Failed(e),
                _ => false,
            },
    {
        match self {
            Response::Received(m) => RecvReply::Received(m),
            Response::Error(e) => RecvReply::Failed(e),
            _ => RecvReply::Failed(Error::Canceled),
        }
    }
}

} // verus!
