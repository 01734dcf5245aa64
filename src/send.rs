use vstd::prelude::*;

use crate::error::{Error, NativeError};
use crate::message::{Frame, Multipart, wire, lemma_wire_head};

verus! {

/// Where an in-flight multipart send stands between ticks.
pub enum SendState {
    /// No send pending.
    Ready,
    /// A multipart accepted but not yet begun.
    Pending(Multipart),
    /// Some frames sent; the rest, head first.
    Running(Multipart),
    /// A tick is in progress: a second poll now is a reentrancy.
    Polling,
}

/// What the caller must do after a step of the send machine.
pub enum SendStep {
    /// Every frame has been accepted by the socket.
    Complete,
    /// Hand this frame to the native non-blocking send, then report the outcome.
    Transmit(Frame),
    /// The socket is not ready; poll again after it signals readiness.
    Suspended,
}

/// The send state machine: drives one multipart to the native socket frame
/// by frame, suspending when the socket would block.
pub struct SendMachine {
    pub(crate) state: SendState,
    /// The multipart being worked on while a tick is in progress.
    pub(crate) work: Multipart,
    /// Every frame the socket has accepted, with its more-flag, in order.
    pub(crate) delivered: Ghost<Seq<(Seq<u8>, bool)>>,
}

impl SendStep {
    /// Whether the task should schedule itself again: an attempt that came
    /// out ready may leave work on the socket that no new readiness edge
    /// will announce.
    pub fn wakes_self(&self) -> (r: bool)
        ensures
            r == (*self is Complete),
    {
        match self {
            SendStep::Complete => true,
            _ => false,
        }
    }

    /// The step that asks for frame 0 of `rest` to be sent.
    pub open spec fn transmits_head(&self, rest: Seq<Seq<u8>>) -> bool {
        &&& rest.len() > 0
        &&& self matches SendStep::Transmit(f)
        &&& f.data@ == rest[0]
        &&& f.more == (rest.len() > 1)
    }
}

impl SendMachine {
    /// Whether a tick is in progress (a frame was handed out and its outcome
    /// is awaited).
    pub open(crate) spec fn in_tick(&self) -> bool {
        self.state is Polling
    }

    pub open(crate) spec fn is_idle(&self) -> bool {
        self.state is Ready
    }

    /// The frames not yet accepted by the socket, head first.
    pub open(crate) spec fn remaining(&self) -> Seq<Seq<u8>> {
        match self.state {
            SendState::Ready => Seq::empty(),
            SendState::Pending(m) => m@,
            SendState::Running(m) => m@,
            SendState::Polling => self.work@,
        }
    }

    /// Whether some frames are accepted but not yet all sent.
    pub open(crate) spec fn is_busy(&self) -> bool {
        !(self.state is Ready)
    }

    pub open(crate) spec fn delivered(&self) -> Seq<(Seq<u8>, bool)> {
        self.delivered@
    }

    pub open(crate) spec fn wf(&self) -> bool {
        self.in_tick() ==> self.work@.len() > 0
    }

    /// A machine with no send pending.
    pub fn new() -> (r: SendMachine)
        ensures
            r.wf(),
            r.is_idle(),
            r.remaining().len() == 0,
            r.delivered().len() == 0,
    {
        SendMachine { state: SendState::Ready, work: Multipart::new(), delivered: Ghost(Seq::empty()) }
    }

    /// A machine with `multipart` accepted and not yet begun.
    pub fn pending(multipart: Multipart) -> (r: SendMachine)
        ensures
            r.wf(),
            !r.in_tick(),
            r.is_busy(),
            r.remaining() == multipart@,
            r.delivered().len() == 0,
    {
        SendMachine {
            state: SendState::Pending(multipart),
            work: Multipart::new(),
            delivered: Ghost(Seq::empty()),
        }
    }

    pub fn is_ready(&self) -> (r: bool)
        ensures
            r == self.is_idle(),
    {
        match self.state {
            SendState::Ready => true,
            _ => false,
        }
    }

    pub fn is_in_tick(&self) -> (r: bool)
        ensures
            r == self.in_tick(),
    {
        match self.state {
            SendState::Polling => true,
            _ => false,
        }
    }

    /// Seeds an idle machine with the next multipart.
    pub fn load(&mut self, multipart: Multipart)
        requires
            old(self).wf(),
            old(self).is_idle(),
        ensures
            final(self).wf(),
            !final(self).in_tick(),
            final(self).is_busy(),
            final(self).remaining() == multipart@,
            final(self).delivered() == old(self).delivered(),
    {
        self.state = SendState::Pending(multipart);
    }

    /// Hands out the head of `work` and enters the tick.
    fn transmit_head(&mut self, work: Multipart) -> (r: SendStep)
        requires
            work@.len() > 0,
        ensures
            final(self).in_tick(),
            final(self).wf(),
            final(self).remaining() == work@,
            final(self).delivered() == old(self).delivered(),
            r.transmits_head(work@),
    {
        let n = work.frames.len();
        let data = work.frames[0].clone();
        proof {
            assert(data@ == work@[0]);
        }
        self.work = work;
        self.state = SendState::Polling;
        SendStep::Transmit(Frame { data, more: n > 1 })
    }

    /// Begins a tick: the first action towards sending what is pending.
    ///
    /// A machine already in a tick is left untouched and reports a
    /// reentrancy; an idle one, or one whose multipart has no frames left,
    /// is complete; otherwise the head frame is handed out.
    pub fn poll_flush(&mut self) -> (r: Result<SendStep, Error>)
        requires
            old(self).wf(),
        ensures
            final(self).wf(),
            final(self).delivered() == old(self).delivered(),
            old(self).in_tick() ==> r == Err::<SendStep, Error>(Error::Reentrancy) && *final(self) == *old(self),
            !old(self).in_tick() && old(self).remaining().len() == 0 ==> {
                &&& r is Ok && r->Ok_0 is Complete
                &&& final(self).is_idle()
            },
            !old(self).in_tick() && old(self).remaining().len() > 0 ==> {
                &&& r is Ok && r->Ok_0.transmits_head(old(self).remaining())
                &&& final(self).in_tick()
                &&& final(self).remaining() == old(self).remaining()
            },
    {
        let mut prev = SendState::Polling;
        std::mem::swap(&mut self.state, &mut prev);
        match prev {
            SendState::Polling => Err(Error::Reentrancy),
            SendState::Ready => {
                self.state = SendState::Ready;
                Ok(SendStep::Complete)
            },
            SendState::Pending(m) | SendState::Running(m) => {
                if m.is_empty() {
                    self.state = SendState::Ready;
                    Ok(SendStep::Complete)
                } else {
                    Ok(self.transmit_head(m))
                }
            },
        }
    }

    /// Ends the frame of a tick that the native send was given, with what
    /// the send reported.
    ///
    /// When the frame was accepted, it is recorded as delivered and the next
    /// frame is handed out, or the machine completes. When the socket would
    /// block, the frame stays at the head and the machine suspends. Any other
    /// error drops the multipart, leaves the machine idle and surfaces.
    pub fn on_send(&mut self, outcome: Result<(), NativeError>) -> (r: Result<SendStep, Error>)
        requires
            old(self).wf(),
            old(self).in_tick(),
        ensures
            final(self).wf(),
            outcome is Ok ==> {
                &&& final(self).delivered() == old(self).delivered().push(wire(old(self).remaining())[0])
                &&& final(self).remaining() == old(self).remaining().drop_first()
                &&& final(self).remaining().len() == 0 ==> r is Ok && r->Ok_0 is Complete
                    && final(self).is_idle()
                &&& final(self).remaining().len() > 0 ==> r is Ok
                    && r->Ok_0.transmits_head(final(self).remaining()) && final(self).in_tick()
            },
            outcome == Err::<(), NativeError>(NativeError::WouldBlock) ==> {
                &&& r is Ok && r->Ok_0 is Suspended
                &&& !final(self).in_tick() && final(self).is_busy()
                &&& final(self).remaining() == old(self).remaining()
                &&& final(self).delivered() == old(self).delivered()
            },
            outcome is Err && !outcome->Err_0.spec_is_transient() ==> {
                &&& r == Err::<SendStep, Error>(outcome->Err_0.spec_surface())
                &&& final(self).is_idle()
                &&& final(self).delivered() == old(self).delivered()
            },
    {
        let mut work = Multipart::new();
        std::mem::swap(&mut self.work, &mut work);
        match outcome {
            Ok(()) => {
                let ghost before = work@;
                proof {
                    lemma_wire_head(before);
                }
                self.delivered = Ghost(self.delivered@.push((before[0], before.len() > 1)));
                work.frames.remove(0);
                assert(work@ =~= before.drop_first());
                if work.is_empty() {
                    self.state = SendState::Ready;
                    Ok(SendStep::Complete)
                } else {
                    Ok(self.transmit_head(work))
                }
            },
            Err(NativeError::WouldBlock) => {
                self.state = SendState::Running(work);
                Ok(SendStep::Suspended)
            },
            Err(e) => {
                self.state = SendState::Ready;
                Err(e.surface())
            },
        }
    }
}

} // verus!
