use vstd::prelude::*;

verus! {

/// The native code of the "try again" error.
pub const EAGAIN: i32 = 11;

/// What the native library reports when a non-blocking operation fails.
#[derive(Clone, Copy, Debug, PartialEq, Eq)]
pub enum NativeError {
    /// The operation cannot proceed now; try again once the socket is ready.
    WouldBlock,
    /// The operation is not valid in the socket's current protocol state.
    WrongState,
    /// Any other error, by its native code.
    Code(i32),
}

/// Errors surfaced by futures, sinks and streams.
#[derive(Clone, Copy, Debug, PartialEq, Eq)]
pub enum Error {
    /// A state machine was polled while one of its ticks was in progress.
    Reentrancy,
    /// A one-shot future was polled again after it handed back its socket.
    Reused,
    /// The worker went away before answering a request.
    Canceled,
    /// Every socket id has been issued: no more sockets can be registered.
    IdsExhausted,
    /// The native socket was used in the wrong protocol state.
    WrongState,
    /// Any other error of the native library, by its code.
    Native(i32),
}

impl NativeError {
    /// Whether the error only means "not now": it is absorbed and never surfaces.
    pub open spec fn spec_is_transient(&self) -> bool {
        *self == NativeError::WouldBlock
    }

    pub fn is_transient(&self) -> (r: bool)
        ensures
            r == self.spec_is_transient(),
    {
        match self {
            NativeError::WouldBlock => true,
            _ => false,
        }
    }

    /// The error that a terminal native failure surfaces as.
    pub open spec fn spec_surface(&self) -> Error {
        match *self {
            NativeError::WouldBlock => Error::Native(EAGAIN),
            NativeError::WrongState => Error::WrongState,
            NativeError::Code(c) => Error::Native(c),
        }
    }

    pub fn surface(&self) -> (r: Error)
        ensures
            r == self.spec_surface(),
    {
        match self {
            NativeError::WouldBlock => Error::Native(EAGAIN),
            NativeError::WrongState => Error::WrongState,
            NativeError::Code(c) => Error::Native(*c),
        }
    }
}

} // verus!
