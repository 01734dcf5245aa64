use vstd::prelude::*;

use crate::error::{Error, NativeError};
use crate::message::{Frame, Multipart, assemble};

verus! {

/// Where the assembly of an incoming multipart stands between ticks.
pub enum RecvState {
    /// Nothing received of the next multipart yet.
    Pending,
    /// Some frames of the next multipart received.
    Running(Multipart),
    /// A tick is in progress: a second poll now is a reentrancy.
    Polling,
}

/// What the caller must do after a step of the receive machine.
pub enum RecvStep {
    /// Call the native non-blocking receive, then report the outcome.
    Fetch,
    /// A whole multipart has arrived.
    Ready(Multipart),
    /// Nothing to read now; poll again after the socket signals readiness.
    Suspended,
}

impl RecvStep {
    /// Whether the task should schedule itself again: an attempt that came
    /// out ready may leave work on the socket that no new readiness edge
    /// will announce.
    pub fn wakes_self(&self) -> (r: bool)
        ensures
            r == (*self is Ready),
    {
        match self {
            RecvStep::Ready(_) => true,
            _ => false,
        }
    }
}

/// The receive state machine: assembles one multipart at a time from
/// non-blocking reads, keeping what it has across suspensions.
pub struct RecvMachine {
    pub(crate) state: RecvState,
    /// The frames gathered so far while a tick is in progress.
    pub(crate) work: Multipart,
}

impl RecvMachine {
    pub open(crate) spec fn in_tick(&self) -> bool {
        self.state is Polling
    }

    /// The frames of the next multipart received so far.
    pub open(crate) spec fn partial(&self) -> Seq<Seq<u8>> {
        match self.state {
            RecvState::Pending => Seq::empty(),
            RecvState::Running(m) => m@,
            RecvState::Polling => self.work@,
        }
    }

    /// A machine waiting for the first frame of a multipart.
    pub fn new() -> (r: RecvMachine)
        ensures
            !r.in_tick(),
            r.partial().len() == 0,
    {
        RecvMachine { state: RecvState::Pending, work: Multipart::new() }
    }

    pub fn is_in_tick(&self) -> (r: bool)
        ensures
            r == self.in_tick(),
    {
        match self.state {
            RecvState::Polling => true,
            _ => false,
        }
    }

    /// How many frames of the next multipart have been received.
    pub fn partial_len(&self) -> (r: usize)
        ensures
            r == self.partial().len(),
    {
        match &self.state {
            RecvState::Pending => 0,
            RecvState::Running(m) => m.len(),
            RecvState::Polling => self.work.len(),
        }
    }

    /// Begins a tick. A machine already in a tick is left untouched and
    /// reports a reentrancy; otherwise it asks for a frame, keeping the
    /// frames gathered so far.
    pub fn poll_fetch(&mut self) -> (r: Result<RecvStep, Error>)
        ensures
            old(self).in_tick() ==> r == Err::<RecvStep, Error>(Error::Reentrancy) && *final(self) == *old(self),
            !old(self).in_tick() ==> r is Ok && r->Ok_0 is Fetch && final(self).in_tick(),
            final(self).partial() == old(self).partial(),
    {
        let mut prev = RecvState::Polling;
        std::mem::swap(&mut self.state, &mut prev);
        match prev {
            RecvState::Polling => Err(Error::Reentrancy),
            RecvState::Pending => {
                self.work = Multipart::new();
                Ok(RecvStep::Fetch)
            },
            RecvState::Running(m) => {
                self.work = m;
                Ok(RecvStep::Fetch)
            },
        }
    }

    /// Ends the read of a tick with what the native receive reported.
    ///
    /// A frame is appended to the multipart being gathered; the multipart is
    /// handed out when the frame is its last one, else another read is asked
    /// for. When nothing is available the machine suspends; any other error
    /// surfaces. Either way the frames gathered so far are kept.
    pub fn on_recv(&mut self, outcome: Result<Frame, NativeError>) -> (r: Result<RecvStep, Error>)
        requires
            old(self).in_tick(),
        ensures
            outcome is Ok && outcome->Ok_0.more ==> {
                &&& r is Ok && r->Ok_0 is Fetch && final(self).in_tick()
                &&& final(self).partial() == old(self).partial().push(outcome->Ok_0.data@)
            },
            outcome is Ok && !outcome->Ok_0.more ==> {
                &&& r is Ok && r->Ok_0 is Ready
                &&& r->Ok_0->Ready_0@ == old(self).partial().push(outcome->Ok_0.data@)
                &&& !final(self).in_tick() && final(self).partial().len() == 0
            },
            outcome == Err::<Frame, NativeError>(NativeError::WouldBlock) ==> {
                &&& r is Ok && r->Ok_0 is Suspended
            },
            outcome is Err && !outcome->Err_0.spec_is_transient() ==> {
                &&& r == Err::<RecvStep, Error>(outcome->Err_0.spec_surface())
            },
            outcome is Err ==> !final(self).in_tick() && final(self).partial() == old(self).partial(),
            outcome is Ok ==> forall|rest: Seq<(Seq<u8>, bool)>|
                #[trigger] assemble(old(self).partial(), seq![outcome->Ok_0@] + rest) == (match r {
                    Ok(RecvStep::Ready(m)) => seq![m@],
                    _ => Seq::empty(),
                }) + assemble(final(self).partial(), rest),
    {
        proof {
            if outcome is Ok {
                let f = outcome->Ok_0;
                assert forall|rest: Seq<(Seq<u8>, bool)>| #[trigger] (seq![f@] + rest).drop_first() == rest by {
                    assert((seq![f@] + rest).drop_first() =~= rest);
                }
            }
        }
        match outcome {
            Ok(frame) => {
                self.work.push_back(frame.data);
                if frame.more {
                    Ok(RecvStep::Fetch)
                } else {
                    let mut done = Multipart::new();
                    std::mem::swap(&mut self.work, &mut done);
                    self.state = RecvState::Pending;
                    Ok(RecvStep::Ready(done))
                }
            },
            Err(e) => {
                let mut kept = Multipart::new();
                std::mem::swap(&mut self.work, &mut kept);
                self.state = if kept.is_empty() {
                    RecvState::Pending
                } else {
                    RecvState::Running(kept)
                };
                if e.is_transient() {
                    Ok(RecvStep::Suspended)
                } else {
                    Err(e.surface())
                }
            },
        }
    }
}

} // verus!
