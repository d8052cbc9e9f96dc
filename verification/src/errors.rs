use vstd::prelude::*;

verus! {

/// Error returned by a send whose receiving half was dropped; it hands the
/// undelivered value back to the caller.
#[derive(Debug)]
pub struct SendError<T>(pub T);

/// Error returned by a non-blocking send on a bounded channel; either way it
/// hands the undelivered value back to the caller.
#[derive(Debug)]
pub enum TrySendError<T> {
    /// The queue was at capacity at the instant of the call.
    Full(T),
    /// Every receiving half was dropped.
    Disconnected(T),
}

/// Error returned by a non-blocking receive.
#[derive(Debug, Clone, Copy, PartialEq, Eq, Structural)]
pub enum TryRecvError {
    /// Nothing is queued right now, and a producer may still send.
    Empty,
    /// Every producing half was dropped and the buffer is drained.
    Disconnected,
}

impl<T> TrySendError<T> {
    /// The undelivered value the error carries.
    pub open spec fn value(self) -> T {
        match self {
            TrySendError::Full(t) => t,
            TrySendError::Disconnected(t) => t,
        }
    }
}

} // verus!
