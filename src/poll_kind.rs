use vstd::prelude::*;

use crate::readiness::{POLLIN, POLLOUT};

verus! {

/// The directions a socket is armed for in the worker's next poll: a set
/// drawn from {read, write}.
#[derive(Clone, Copy, Debug, PartialEq, Eq)]
pub enum PollKind {
    /// Armed for write only.
    SendMsg,
    /// Armed for read only.
    RecvMsg,
    /// Armed for both.
    SendRecv,
    /// Not armed.
    Unused,
}

impl PollKind {
    /// Whether the read direction is armed.
    pub open spec fn reads(self) -> bool {
        self is RecvMsg || self is SendRecv
    }

    /// Whether the write direction is armed.
    pub open spec fn writes(self) -> bool {
        self is SendMsg || self is SendRecv
    }

    /// The poll event mask of the armed directions.
    pub open spec fn spec_events(self) -> i16 {
        match self {
            PollKind::SendMsg => POLLOUT,
            PollKind::RecvMsg => POLLIN,
            PollKind::SendRecv => 3,
            PollKind::Unused => 0,
        }
    }

    pub fn as_events(&self) -> (r: i16)
        ensures
            r == self.spec_events(),
            (r & POLLIN == POLLIN) == self.reads(),
            (r & POLLOUT == POLLOUT) == self.writes(),
    {
        assert(1i16 | 2i16 == 3i16) by (bit_vector);
        let r: i16 = match *self {
            PollKind::SendMsg => POLLOUT,
            PollKind::RecvMsg => POLLIN,
            PollKind::SendRecv => POLLIN | POLLOUT,
            PollKind::Unused => 0,
        };
        proof {
            let x = r;
            if x == 2 {
                assert(x & 1 == 0 && x & 2 == 2) by (bit_vector)
                    requires
                        x == 2,
                ;
            } else if x == 1 {
                assert(x & 1 == 1 && x & 2 == 0) by (bit_vector)
                    requires
                        x == 1,
                ;
            } else if x == 0 {
                assert(x & 1 == 0 && x & 2 == 0) by (bit_vector)
                    requires
                        x == 0,
                ;
            } else {
                assert(x & 1 == 1 && x & 2 == 2) by (bit_vector)
                    requires
                        x == 3,
                ;
            }
        }
        r
    }

    pub fn is_read(&self) -> (r: bool)
        ensures
            r == self.reads(),
    {
        match *self {
            PollKind::RecvMsg | PollKind::SendRecv => true,
            _ => false,
        }
    }

    pub fn is_write(&self) -> (r: bool)
        ensures
            r == self.writes(),
    {
        match *self {
            PollKind::SendMsg | PollKind::SendRecv => true,
            _ => false,
        }
    }

    /// Adds the read direction.
    pub fn read(&mut self)
        ensures
            final(self).reads(),
            final(self).writes() == old(self).writes(),
    {
        *self = match *self {
            PollKind::SendMsg | PollKind::SendRecv => PollKind::SendRecv,
            _ => PollKind::RecvMsg,
        };
    }

    /// Removes the read direction.
    pub fn clear_read(&mut self)
        ensures
            !final(self).reads(),
            final(self).writes() == old(self).writes(),
    {
        *self = match *self {
            PollKind::SendRecv | PollKind::SendMsg => PollKind::SendMsg,
            _ => PollKind::Unused,
        };
    }

    /// Adds the write direction.
    pub fn write(&mut self)
        ensures
            final(self).writes(),
            final(self).reads() == old(self).reads(),
    {
        *self = match *self {
            PollKind::RecvMsg | PollKind::SendRecv => PollKind::SendRecv,
            _ => PollKind::SendMsg,
        };
    }

    /// Removes the write direction.
    pub fn clear_write(&mut self)
        ensures
            !final(self).writes(),
            final(self).reads() == old(self).reads(),
    {
        *self = match *self {
            PollKind::SendRecv | PollKind::RecvMsg => PollKind::RecvMsg,
            _ => PollKind::Unused,
        };
    }
}

} // verus!
