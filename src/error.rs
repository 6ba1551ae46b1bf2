//! Failures of the endpoint operations. Each failure of a send gives the
//! undelivered message back to the caller.
use vstd::prelude::*;
use vstd::std_specs::convert::FromSpecImpl;

verus! {

/// A blocking send failed because the peer's receiving side is gone; the
/// message was not delivered and is handed back.
#[derive(PartialEq, Eq, Debug)]
pub struct SendFailure<T>(pub T);

/// A non-blocking send did not deliver its message, which is handed back.
#[derive(PartialEq, Eq, Debug)]
pub enum TrySendFailure<T> {
    /// The direction has no room now (for a rendezvous pair: no receive is
    /// waiting).
    Full(T),
    /// The peer's receiving side is gone.
    Disconnected(T),
}

/// A non-blocking receive found no message.
#[derive(PartialEq, Eq, Clone, Copy, Debug)]
pub enum TryRecvFailure {
    /// No message is buffered now, and the peer may still send.
    Empty,
    /// No message is buffered and the peer's sending side is gone.
    Disconnected,
}

impl<T> TrySendFailure<T> {
    /// The message that could not be sent.
    pub open spec fn message(self) -> T {
        match self {
            TrySendFailure::Full(m) => m,
            TrySendFailure::Disconnected(m) => m,
        }
    }

    /// Takes back the message that could not be sent.
    pub fn into_inner(self) -> (m: T)
        ensures
            m == self.message(),
    {
        match self {
            TrySendFailure::Full(m) => m,
            TrySendFailure::Disconnected(m) => m,
        }
    }

    /// Whether the send failed only for want of room.
    pub fn is_full(&self) -> (b: bool)
        ensures
            b == (*self is Full),
    {
        matches!(self, TrySendFailure::Full(_))
    }

    /// Whether the send failed because the peer is gone.
    pub fn is_disconnected(&self) -> (b: bool)
        ensures
            b == (*self is Disconnected),
    {
        matches!(self, TrySendFailure::Disconnected(_))
    }
}

impl<T> From<crossbeam_channel::SendError<T>> for SendFailure<T> {
    fn from(e: crossbeam_channel::SendError<T>) -> (r: Self) {
        SendFailure(e.0)
    }
}

impl<T> FromSpecImpl<crossbeam_channel::SendError<T>> for SendFailure<T> {
    open spec fn obeys_from_spec() -> bool {
        true
    }

    open spec fn from_spec(e: crossbeam_channel::SendError<T>) -> Self {
        SendFailure(e.0)
    }
}

impl<T> From<crossbeam_channel::TrySendError<T>> for TrySendFailure<T> {
    fn from(e: crossbeam_channel::TrySendError<T>) -> (r: Self) {
        match e {
            crossbeam_channel::TrySendError::Full(m) => TrySendFailure::Full(m),
            crossbeam_channel::TrySendError::Disconnected(m) => TrySendFailure::Disconnected(m),
        }
    }
}

impl<T> FromSpecImpl<crossbeam_channel::TrySendError<T>> for TrySendFailure<T> {
    open spec fn obeys_from_spec() -> bool {
        true
    }

    open spec fn from_spec(e: crossbeam_channel::TrySendError<T>) -> Self {
        match e {
            crossbeam_channel::TrySendError::Full(m) => TrySendFailure::Full(m),
            crossbeam_channel::TrySendError::Disconnected(m) => TrySendFailure::Disconnected(m),
        }
    }
}

impl From<crossbeam_channel::TryRecvError> for TryRecvFailure {
    fn from(e: crossbeam_channel::TryRecvError) -> (r: Self) {
        match e {
            crossbeam_channel::TryRecvError::Empty => TryRecvFailure::Empty,
            crossbeam_channel::TryRecvError::Disconnected => TryRecvFailure::Disconnected,
        }
    }
}

impl FromSpecImpl<crossbeam_channel::TryRecvError> for TryRecvFailure {
    open spec fn obeys_from_spec() -> bool {
        true
    }

    open spec fn from_spec(e: crossbeam_channel::TryRecvError) -> Self {
        match e {
            crossbeam_channel::TryRecvError::Empty => TryRecvFailure::Empty,
            crossbeam_channel::TryRecvError::Disconnected => TryRecvFailure::Disconnected,
        }
    }
}

} // verus!
