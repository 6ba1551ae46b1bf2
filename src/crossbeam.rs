//! What this library relies on from `crossbeam_channel`: its channel types,
//! the failures of their operations, and the operations themselves.
use crossbeam_channel::{Receiver, RecvError, SendError, Sender, TryRecvError, TrySendError};
use crate::capacity::bounded_capacity_fits;
use vstd::prelude::*;

verus! {

/// The sending half of a crossbeam channel, carried through opaquely.
#[verifier::external_type_specification]
#[verifier::external_body]
#[verifier::reject_recursive_types(T)]
pub struct ExSender<T>(Sender<T>);

/// The receiving half of a crossbeam channel, carried through opaquely.
#[verifier::external_type_specification]
#[verifier::external_body]
#[verifier::reject_recursive_types(T)]
pub struct ExReceiver<T>(Receiver<T>);

/// crossbeam's blocking-send failure: its public field is the message that
/// could not be delivered.
#[verifier::external_type_specification]
#[verifier::reject_recursive_types(T)]
pub struct ExSendError<T>(SendError<T>);

/// crossbeam's non-blocking-send failure: both variants hold the message.
#[verifier::external_type_specification]
#[verifier::reject_recursive_types(T)]
pub struct ExTrySendError<T>(TrySendError<T>);

/// crossbeam's blocking-receive failure: the channel is empty and closed.
#[verifier::external_type_specification]
pub struct ExRecvError(RecvError);

/// crossbeam's non-blocking-receive failure: empty, or empty and closed.
#[verifier::external_type_specification]
pub struct ExTryRecvError(TryRecvError);

/// Relies on `crossbeam_channel::bounded`, which allocates a fresh channel
/// of capacity `cap` (a rendezvous channel for 0) and panics only where
/// its buffer of `cap` slots cannot be sized.
#[verifier::external_body]
pub(crate) fn bounded_channel<T>(cap: usize) -> (Sender<T>, Receiver<T>)
    requires
        bounded_capacity_fits::<T>(cap),
{
    crossbeam_channel::bounded(cap)
}

/// Relies on `crossbeam_channel::unbounded`, which allocates a fresh channel
/// and never panics.
#[verifier::external_body]
pub(crate) fn unbounded_channel<T>() -> (Sender<T>, Receiver<T>) {
    crossbeam_channel::unbounded()
}

/// Relies on `Sender::send`: a failure hands back the very message that was
/// given.
pub assume_specification<T>[ Sender::<T>::send ](s: &Sender<T>, msg: T) -> (r: Result<
    (),
    SendError<T>,
>)
    ensures
        r matches Err(e) ==> e.0 == msg,
;

/// Relies on `Sender::try_send`: either failure hands back the very message
/// that was given.
pub assume_specification<T>[ Sender::<T>::try_send ](s: &Sender<T>, msg: T) -> (r: Result<
    (),
    TrySendError<T>,
>)
    ensures
        r matches Err(TrySendError::Full(m)) ==> m == msg,
        r matches Err(TrySendError::Disconnected(m)) ==> m == msg,
;

/// Relies on `Receiver::recv`; what arrives depends on the peer.
pub assume_specification<T>[ Receiver::<T>::recv ](r: &Receiver<T>) -> Result<T, RecvError>;

/// Relies on `Receiver::try_recv`; what arrives depends on the peer.
pub assume_specification<T>[ Receiver::<T>::try_recv ](r: &Receiver<T>) -> Result<
    T,
    TryRecvError,
>;

} // verus!
