use vstd::prelude::*;

use crate::error::{Error, NativeError};
use crate::message::{Frame, Multipart, wire};
use crate::recv::{RecvMachine, RecvStep};
use crate::send::{SendMachine, SendStep};

verus! {

/// What the caller of a one-shot send must do next.
pub enum RequestStep<S> {
    /// The whole multipart went out: the socket is handed back.
    Sent(S),
    /// Hand this frame to the native non-blocking send, then report the outcome.
    Transmit(Frame),
    /// The socket is not ready; poll again after it signals readiness.
    Suspended,
}

/// What the caller of a one-shot receive must do next.
pub enum ResponseStep<S> {
    /// A whole multipart arrived: it is handed out with the socket.
    Received(Multipart, S),
    /// Call the native non-blocking receive, then report the outcome.
    Fetch,
    /// Nothing to read; poll again after the socket signals readiness.
    Suspended,
}

impl<S> RequestStep<S> {
    /// Whether the task should schedule itself again: an attempt that came
    /// out ready may leave work on the socket that no new readiness edge
    /// will announce.
    pub fn wakes_self(&self) -> (r: bool)
        ensures
            r == (*self is Sent),
    {
        match self {
            RequestStep::Sent(_) => true,
            _ => false,
        }
    }
}

impl<S> ResponseStep<S> {
    /// Whether the task should schedule itself again: an attempt that came
    /// out ready may leave work on the socket that no new readiness edge
    /// will announce.
    pub fn wakes_self(&self) -> (r: bool)
        ensures
            r == (*self is Received),
    {
        match self {
            ResponseStep::Received(..) => true,
            _ => false,
        }
    }
}

/// A one-shot send of one multipart that hands the socket back when done.
pub struct MultipartRequest<S> {
    pub(crate) state: SendMachine,
    pub(crate) sock: Option<S>,
    /// The multipart this send was made with.
    pub(crate) initial: Ghost<Seq<Seq<u8>>>,
    /// A native error ended the send.
    pub(crate) failed: Ghost<bool>,
}

impl<S> MultipartRequest<S> {
    /// Unless the send failed, the frames delivered followed by the frames
    /// still to send are the frames of the multipart it was made with, and
    /// the socket is handed back only once nothing is left.
    pub open(crate) spec fn wf(&self) -> bool {
        &&& self.state.wf()
        &&& self.state.in_tick() ==> self.sock is Some
        &&& !self.failed@ ==> self.state.delivered() + wire(self.state.remaining()) == wire(self.initial@)
        &&& !self.failed@ && self.sock is None ==> self.state.remaining().len() == 0
    }

    /// The multipart this send was made with.
    pub open(crate) spec fn initial(&self) -> Seq<Seq<u8>> {
        self.initial@
    }

    /// Whether a native error ended the send.
    pub open(crate) spec fn failed(&self) -> bool {
        self.failed@
    }

    /// The socket, until it is handed back.
    pub open(crate) spec fn socket(&self) -> Option<S> {
        self.sock
    }

    /// The frames not yet accepted by the socket.
    pub open(crate) spec fn remaining(&self) -> Seq<Seq<u8>> {
        self.state.remaining()
    }

    /// The frames the socket has accepted, with their more-flags.
    pub open(crate) spec fn delivered(&self) -> Seq<(Seq<u8>, bool)> {
        self.state.delivered()
    }

    pub open(crate) spec fn in_tick(&self) -> bool {
        self.state.in_tick()
    }

    /// A send of `multipart` over `sock`, not yet begun.
    pub fn new(sock: S, multipart: Multipart) -> (r: MultipartRequest<S>)
        ensures
            r.wf(),
            r.socket() == Some(sock),
            r.remaining() == multipart@,
            r.delivered().len() == 0,
            r.initial() == multipart@,
            !r.failed(),
            !r.in_tick(),
    {
        let ghost whole = multipart@;
        let r = MultipartRequest {
            state: SendMachine::pending(multipart),
            sock: Some(sock),
            initial: Ghost(whole),
            failed: Ghost(false),
        };
        assert(r.state.delivered() + wire(r.state.remaining()) =~= wire(whole));
        r
    }

    pub fn is_in_tick(&self) -> (r: bool)
        ensures
            r == self.in_tick(),
    {
        self.state.is_in_tick()
    }

    /// The socket, until it is handed back.
    pub fn sock(&self) -> (r: Option<&S>)
        ensures
            r == match self.socket() {
                Some(s) => Some(&s),
                None => None,
            },
    {
        self.sock.as_ref()
    }

    /// Hands the socket back once the machine is idle.
    fn finish(&mut self, step: SendStep) -> (r: RequestStep<S>)
        requires
            old(self).sock is Some,
            step is Complete ==> !old(self).state.in_tick(),
        ensures
            final(self).state == old(self).state,
            final(self).initial == old(self).initial,
            final(self).failed == old(self).failed,
            step is Complete ==> r == RequestStep::Sent(old(self).sock->Some_0) && final(self).sock is None,
            step is Transmit ==> r == RequestStep::<S>::Transmit(step->Transmit_0)
                && final(self).sock == old(self).sock,
            step is Suspended ==> r is Suspended && final(self).sock == old(self).sock,
    {
        match step {
            SendStep::Complete => {
                let sock = self.sock.take().unwrap();
                RequestStep::Sent(sock)
            },
            SendStep::Transmit(f) => RequestStep::Transmit(f),
            SendStep::Suspended => RequestStep::Suspended,
        }
    }

    /// Polls the send. Once the socket has been handed back, every poll
    /// fails with `Reused`; a poll inside a tick fails with `Reentrancy`.
    /// Otherwise the head frame is handed out, or the socket when no frame
    /// is left.
    pub fn poll(&mut self) -> (r: Result<RequestStep<S>, Error>)
        requires
            old(self).wf(),
        ensures
            final(self).wf(),
            final(self).initial() == old(self).initial() && final(self).failed() == old(self).failed(),
            final(self).delivered() == old(self).delivered(),
            old(self).socket() is None ==> r == Err::<RequestStep<S>, Error>(Error::Reused)
                && *final(self) == *old(self),
            old(self).socket() is Some && old(self).in_tick() ==> r == Err::<RequestStep<S>, Error>(
                Error::Reentrancy,
            ) && *final(self) == *old(self),
            old(self).socket() is Some && !old(self).in_tick() && old(self).remaining().len() == 0 ==> {
                &&& r == Ok::<RequestStep<S>, Error>(RequestStep::Sent(old(self).socket()->Some_0))
                &&& final(self).socket() is None
            },
            old(self).socket() is Some && !old(self).in_tick() && old(self).remaining().len() > 0 ==> {
                &&& r is Ok && r->Ok_0 is Transmit
                &&& r->Ok_0->Transmit_0@ == wire(old(self).remaining())[0]
                &&& final(self).in_tick()
                &&& final(self).socket() == old(self).socket()
                &&& final(self).remaining() == old(self).remaining()
            },
    {
        if self.sock.is_none() {
            return Err(Error::Reused);
        }
        let step = match self.state.poll_flush() {
            Ok(s) => s,
            Err(e) => {
                return Err(e);
            },
        };
        Ok(self.finish(step))
    }

    /// Reports the outcome of the frame handed out. An accepted frame is
    /// delivered and the next one handed out, or the socket once none is
    /// left; when the socket would block the send suspends; any other error
    /// surfaces, and the socket is dropped with the failed send.
    pub fn on_send(
        &mut self,
        outcome: Result<(), NativeError>,
    ) -> (r: Result<RequestStep<S>, Error>)
        requires
            old(self).wf(),
            old(self).in_tick(),
        ensures
            final(self).wf(),
            final(self).initial() == old(self).initial(),
            final(self).failed() == (old(self).failed() || (outcome is Err && !outcome->Err_0.spec_is_transient())),
            outcome is Ok ==> {
                &&& final(self).delivered() == old(self).delivered().push(wire(old(self).remaining())[0])
                &&& final(self).remaining() == old(self).remaining().drop_first()
                &&& final(self).remaining().len() == 0 ==> r == Ok::<RequestStep<S>, Error>(
                    RequestStep::Sent(old(self).socket()->Some_0),
                ) && final(self).socket() is None
                &&& final(self).remaining().len() > 0 ==> r is Ok && r->Ok_0 is Transmit
                    && r->Ok_0->Transmit_0@ == wire(final(self).remaining())[0]
                    && final(self).in_tick() && final(self).socket() == old(self).socket()
            },
            outcome == Err::<(), NativeError>(NativeError::WouldBlock) ==> {
                &&& r is Ok && r->Ok_0 is Suspended
                &&& !final(self).in_tick()
                &&& final(self).remaining() == old(self).remaining()
                &&& final(self).delivered() == old(self).delivered()
                &&& final(self).socket() == old(self).socket()
            },
            outcome is Err && !outcome->Err_0.spec_is_transient() ==> {
                &&& r == Err::<RequestStep<S>, Error>(outcome->Err_0.spec_surface())
                &&& final(self).socket() is None
                &&& final(self).delivered() == old(self).delivered()
            },
    {
        let ghost rem = self.state.remaining();
        proof {
            crate::message::lemma_wire_head(rem);
        }
        match self.state.on_send(outcome) {
            Ok(step) => {
                proof {
                    if step is Transmit {
                        crate::message::lemma_wire_head(self.state.remaining());
                    }
                }
                proof {
                    if !self.failed@ {
                        assert(self.state.delivered() + wire(self.state.remaining()) =~= old(self).state.delivered()
                            + wire(old(self).state.remaining()));
                    }
                }
                Ok(self.finish(step))
            },
            Err(e) => {
                self.failed = Ghost(true);
                self.sock = None;
                Err(e)
            },
        }
    }
}

/// A one-shot receive of one multipart that hands the socket back with it.
pub struct MultipartResponse<S> {
    pub(crate) state: RecvMachine,
    pub(crate) sock: Option<S>,
}

impl<S> MultipartResponse<S> {
    pub open(crate) spec fn wf(&self) -> bool {
        self.state.in_tick() ==> self.sock is Some
    }

    /// The socket, until it is handed back.
    pub open(crate) spec fn socket(&self) -> Option<S> {
        self.sock
    }

    /// The frames received so far of the multipart being assembled.
    pub open(crate) spec fn partial(&self) -> Seq<Seq<u8>> {
        self.state.partial()
    }

    pub open(crate) spec fn in_tick(&self) -> bool {
        self.state.in_tick()
    }

    /// A receive over `sock`, with nothing received yet.
    pub fn new(sock: S) -> (r: MultipartResponse<S>)
        ensures
            r.wf(),
            r.socket() == Some(sock),
            r.partial().len() == 0,
            !r.in_tick(),
    {
        MultipartResponse { state: RecvMachine::new(), sock: Some(sock) }
    }

    pub fn is_in_tick(&self) -> (r: bool)
        ensures
            r == self.in_tick(),
    {
        self.state.is_in_tick()
    }

    /// The socket, until it is handed back.
    pub fn sock(&self) -> (r: Option<&S>)
        ensures
            r == match self.socket() {
                Some(s) => Some(&s),
                None => None,
            },
    {
        self.sock.as_ref()
    }

    /// Polls the receive. Once the socket has been handed back, every poll
    /// fails with `Reused`; a poll inside a tick fails with `Reentrancy`;
    /// otherwise a read is asked for.
    pub fn poll(&mut self) -> (r: Result<ResponseStep<S>, Error>)
        requires
            old(self).wf(),
        ensures
            final(self).wf(),
            final(self).partial() == old(self).partial(),
            old(self).socket() is None ==> r == Err::<ResponseStep<S>, Error>(Error::Reused)
                && *final(self) == *old(self),
            old(self).socket() is Some && old(self).in_tick() ==> r == Err::<ResponseStep<S>, Error>(
                Error::Reentrancy,
            ) && *final(self) == *old(self),
            old(self).socket() is Some && !old(self).in_tick() ==> {
                &&& r is Ok && r->Ok_0 is Fetch
                &&& final(self).in_tick()
                &&& final(self).socket() == old(self).socket()
            },
    {
        if self.sock.is_none() {
            return Err(Error::Reused);
        }
        match self.state.poll_fetch() {
            Ok(_) => Ok(ResponseStep::Fetch),
            Err(e) => Err(e),
        }
    }

    /// Reports what the native receive gave. A frame with the more-flag
    /// asks for another read; the last frame completes the multipart, which
    /// is handed out with the socket; when nothing is available the receive
    /// suspends; any other error surfaces, and the socket is dropped with
    /// the failed receive.
    pub fn on_recv(
        &mut self,
        outcome: Result<Frame, NativeError>,
    ) -> (r: Result<ResponseStep<S>, Error>)
        requires
            old(self).wf(),
            old(self).in_tick(),
        ensures
            final(self).wf(),
            outcome is Ok && outcome->Ok_0.more ==> {
                &&& r is Ok && r->Ok_0 is Fetch && final(self).in_tick()
                &&& final(self).partial() == old(self).partial().push(outcome->Ok_0.data@)
                &&& final(self).socket() == old(self).socket()
            },
            outcome is Ok && !outcome->Ok_0.more ==> {
                &&& r is Ok && r->Ok_0 is Received
                &&& r->Ok_0->Received_0@ == old(self).partial().push(outcome->Ok_0.data@)
                &&& r->Ok_0->Received_1 == old(self).socket()->Some_0
                &&& final(self).socket() is None
            },
            outcome == Err::<Frame, NativeError>(NativeError::WouldBlock) ==> {
                &&& r is Ok && r->Ok_0 is Suspended
                &&& !final(self).in_tick()
                &&& final(self).partial() == old(self).partial()
                &&& final(self).socket() == old(self).socket()
            },
            outcome is Err && !outcome->Err_0.spec_is_transient() ==> {
                &&& r == Err::<ResponseStep<S>, Error>(outcome->Err_0.spec_surface())
                &&& final(self).socket() is None
            },
    {
        match self.state.on_recv(outcome) {
            Ok(RecvStep::Ready(m)) => {
                let sock = self.sock.take().unwrap();
                Ok(ResponseStep::Received(m, sock))
            },
            Ok(RecvStep::Fetch) => Ok(ResponseStep::Fetch),
            Ok(RecvStep::Suspended) => Ok(ResponseStep::Suspended),
            Err(e) => {
                self.sock = None;
                Err(e)
            },
        }
    }
}

} // verus!
