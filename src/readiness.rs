use vstd::prelude::*;

verus! {

/// The bit of a native event mask that reports readiness to receive.
pub const POLLIN: i16 = 1;

/// The bit of a native event mask that reports readiness to send.
pub const POLLOUT: i16 = 2;

/// A direction of transfer on a socket.
#[derive(Clone, Copy, Debug, PartialEq, Eq)]
pub enum Direction {
    Read,
    Write,
}

/// The mask bit that reports readiness in a direction.
pub open spec fn bit_of(d: Direction) -> i16 {
    match d {
        Direction::Read => POLLIN,
        Direction::Write => POLLOUT,
    }
}

/// Whether a native event mask has a bit set.
pub open spec fn has_bit(events: i16, bit: i16) -> bool {
    events & bit == bit
}

/// The other direction.
pub open spec fn opposite(d: Direction) -> Direction {
    match d {
        Direction::Read => Direction::Write,
        Direction::Write => Direction::Read,
    }
}

/// What a send or receive attempt does after the reactor has been armed and
/// the native event mask read.
#[derive(Clone, Copy, Debug, PartialEq, Eq)]
pub struct Reconciled {
    /// The requested direction is ready: go on with the attempt.
    pub proceed: bool,
    /// Clear the armed bit and report not-ready to the reactor.
    pub clear_armed: bool,
    /// Wake the task registered on the other direction, which is ready.
    pub notify_peer: bool,
}

/// Reconciles the reactor's edge signal with the native event mask for an
/// attempt in direction `dir`: the attempt proceeds only when the native
/// mask reports that direction ready; otherwise the armed bit is cleared so
/// that the next edge wakes the task. When the mask reports the other
/// direction ready and a task is registered there, that task is woken.
pub fn reconcile(dir: Direction, events: i16, peer_registered: bool) -> (r: Reconciled)
    ensures
        r.proceed == has_bit(events, bit_of(dir)),
        r.clear_armed == !r.proceed,
        r.notify_peer == (peer_registered && has_bit(events, bit_of(opposite(dir)))),
{
    let (mine, theirs): (i16, i16) = match dir {
        Direction::Read => (POLLIN, POLLOUT),
        Direction::Write => (POLLOUT, POLLIN),
    };
    let proceed = events & mine == mine;
    Reconciled { proceed, clear_armed: !proceed, notify_peer: peer_registered && events & theirs == theirs }
}

} // verus!
