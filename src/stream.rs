use vstd::prelude::*;

use crate::error::{Error, NativeError};
use crate::message::Frame;
use crate::recv::{RecvMachine, RecvStep};

verus! {

/// A socket turned into an endless sequence of incoming multiparts.
pub struct MultipartStream<S> {
    pub(crate) state: RecvMachine,
    pub(crate) sock: S,
}

impl<S> MultipartStream<S> {
    pub open(crate) spec fn socket(&self) -> S {
        self.sock
    }

    /// The frames received so far of the multipart being assembled.
    pub open(crate) spec fn partial(&self) -> Seq<Seq<u8>> {
        self.state.partial()
    }

    pub open(crate) spec fn in_tick(&self) -> bool {
        self.state.in_tick()
    }

    /// A stream over `sock`, with nothing received yet.
    pub fn new(sock: S) -> (r: MultipartStream<S>)
        ensures
            r.socket() == sock,
            r.partial().len() == 0,
            !r.in_tick(),
    {
        MultipartStream { state: RecvMachine::new(), sock }
    }

    /// The socket, for its native I/O.
    pub fn sock(&self) -> (r: &S)
        ensures
            *r == self.socket(),
    {
        &self.sock
    }

    /// How many frames of the next multipart have been received.
    pub fn partial_len(&self) -> (r: usize)
        ensures
            r == self.partial().len(),
    {
        self.state.partial_len()
    }

    /// Gives the socket back.
    pub fn into_socket(self) -> (r: S)
        ensures
            r == self.socket(),
    {
        self.sock
    }

    pub fn is_in_tick(&self) -> (r: bool)
        ensures
            r == self.in_tick(),
    {
        self.state.is_in_tick()
    }

    /// Polls for the next multipart; see `RecvMachine::poll_fetch`.
    pub fn poll(&mut self) -> (r: Result<RecvStep, Error>)
        ensures
            final(self).socket() == old(self).socket(),
            final(self).partial() == old(self).partial(),
            old(self).in_tick() ==> r == Err::<RecvStep, Error>(Error::Reentrancy) && *final(self) == *old(self),
            !old(self).in_tick() ==> r is Ok && r->Ok_0 is Fetch && final(self).in_tick(),
    {
        self.state.poll_fetch()
    }

    /// Reports what the native receive gave; see `RecvMachine::on_recv`.
    /// The stream never ends: after a multipart it waits for the next one.
    pub fn on_recv(&mut self, outcome: Result<Frame, NativeError>) -> (r: Result<RecvStep, Error>)
        requires
            old(self).in_tick(),
        ensures
            final(self).socket() == old(self).socket(),
            outcome is Ok && outcome->Ok_0.more ==> {
                &&& r is Ok && r->Ok_0 is Fetch && final(self).in_tick()
                &&& final(self).partial() == old(self).partial().push(outcome->Ok_0.data@)
            },
            outcome is Ok && !outcome->Ok_0.more ==> {
                &&& r is Ok && r->Ok_0 is Ready
                &&& r->Ok_0->Ready_0@ == old(self).partial().push(outcome->Ok_0.data@)
                &&& !final(self).in_tick() && final(self).partial().len() == 0
            },
            outcome == Err::<Frame, NativeError>(NativeError::WouldBlock) ==> r is Ok && r->Ok_0 is Suspended,
            outcome is Err && !outcome->Err_0.spec_is_transient() ==> r == Err::<RecvStep, Error>(
                outcome->Err_0.spec_surface(),
            ),
            outcome is Err ==> !final(self).in_tick() && final(self).partial() == old(self).partial(),
    {
        self.state.on_recv(outcome)
    }
}

} // verus!
