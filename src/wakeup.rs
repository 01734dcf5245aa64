use vstd::prelude::*;

verus! {

/// The flag that coalesces wakeups of the worker: a byte goes into the
/// self-pipe only when no earlier one is still unread.
pub struct WakeFlag {
    pub(crate) unread: bool,
}

/// One use of the flag: a requester's notification, or the worker's drain.
pub enum WakeOp {
    Notify,
    Drain,
}

/// The flag after a run of uses, starting from `unread`.
pub open spec fn flag_after(unread: bool, ops: Seq<WakeOp>) -> bool
    decreases ops.len(),
{
    if ops.len() == 0 {
        unread
    } else {
        flag_after(
            match ops[0] {
                WakeOp::Notify => true,
                WakeOp::Drain => false,
            },
            ops.drop_first(),
        )
    }
}

/// The bytes written to the self-pipe during a run of uses, starting from
/// `unread`.
pub open spec fn bytes_written(unread: bool, ops: Seq<WakeOp>) -> nat
    decreases ops.len(),
{
    if ops.len() == 0 {
        0
    } else {
        match ops[0] {
            WakeOp::Notify => (if unread {
                0nat
            } else {
                1nat
            }) + bytes_written(true, ops.drop_first()),
            WakeOp::Drain => bytes_written(false, ops.drop_first()),
        }
    }
}

/// How many notifications a run of uses holds.
pub open spec fn notifications(ops: Seq<WakeOp>) -> nat
    decreases ops.len(),
{
    if ops.len() == 0 {
        0
    } else {
        (if ops[0] is Notify {
            1nat
        } else {
            0nat
        }) + notifications(ops.drop_first())
    }
}

impl WakeFlag {
    pub open(crate) spec fn is_unread(&self) -> bool {
        self.unread
    }

    /// A flag with nothing unread.
    pub fn new() -> (r: WakeFlag)
        ensures
            !r.is_unread(),
    {
        WakeFlag { unread: false }
    }

    /// Marks a request as pending, and says whether a wakeup byte must be
    /// written: only when none was unread.
    pub fn notify(&mut self) -> (write_byte: bool)
        ensures
            final(self).is_unread(),
            write_byte == !old(self).is_unread(),
            final(self).is_unread() == flag_after(old(self).is_unread(), seq![WakeOp::Notify]),
            (if write_byte {
                1nat
            } else {
                0nat
            }) == bytes_written(old(self).is_unread(), seq![WakeOp::Notify]),
    {
        proof {
            let ops = seq![WakeOp::Notify];
            assert(ops[0] is Notify);
            assert(ops.drop_first() =~= Seq::<WakeOp>::empty());
            assert(flag_after(self.unread, ops) == flag_after(true, Seq::<WakeOp>::empty()));
            assert(bytes_written(true, Seq::<WakeOp>::empty()) == 0);
        }
        let was = self.unread;
        self.unread = true;
        !was
    }

    /// Clears the flag once the worker has read the self-pipe, and says
    /// whether any request was signalled.
    pub fn drain(&mut self) -> (signalled: bool)
        ensures
            !final(self).is_unread(),
            signalled == old(self).is_unread(),
            final(self).is_unread() == flag_after(old(self).is_unread(), seq![WakeOp::Drain]),
            bytes_written(old(self).is_unread(), seq![WakeOp::Drain]) == 0,
    {
        proof {
            let ops = seq![WakeOp::Drain];
            assert(ops[0] is Drain);
            assert(ops.drop_first() =~= Seq::<WakeOp>::empty());
            assert(flag_after(self.unread, ops) == flag_after(false, Seq::<WakeOp>::empty()));
            assert(bytes_written(false, Seq::<WakeOp>::empty()) == 0);
        }
        let was = self.unread;
        self.unread = false;
        was
    }
}

} // verus!
