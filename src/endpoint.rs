//! The endpoint of a bi-directional channel and the factories that make
//! endpoints in cross-wired pairs.
use crate::capacity::{bounded_capacity_fits, capacity_fits};
use crate::crossbeam::{bounded_channel, unbounded_channel};
use crate::error::{SendFailure, TryRecvFailure, TrySendFailure};
use crossbeam_channel::{Receiver, Sender};
use vstd::prelude::*;

verus! {

/// One side of a bi-directional channel: it receives messages of type `T`
/// on `rx` and sends messages of type `U` on `tx`. Its peer is a
/// `BiChannel<U, T>` that owns the other end of each of the two channels.
#[verifier::reject_recursive_types(T)]
#[verifier::reject_recursive_types(U)]
pub struct BiChannel<T, U> {
    pub rx: Receiver<T>,
    pub tx: Sender<U>,
}

/// `left` and `right` are wired across the two unidirectional channels
/// `forward` (left to right, carrying `U`) and `backward` (right to left,
/// carrying `T`): what one endpoint sends goes into the channel that the
/// other endpoint receives from.
pub open spec fn cross_wired<T, U>(
    left: BiChannel<T, U>,
    right: BiChannel<U, T>,
    forward: (Sender<U>, Receiver<U>),
    backward: (Sender<T>, Receiver<T>),
) -> bool {
    &&& left.tx == forward.0
    &&& right.rx == forward.1
    &&& right.tx == backward.0
    &&& left.rx == backward.1
}

/// Each endpoint of a cross-wired pair sends into exactly the channel that
/// its peer receives from, in both directions: the left endpoint's outbound
/// half and the right endpoint's inbound half are the two halves of
/// `forward`, and the right endpoint's outbound half and the left
/// endpoint's inbound half are the two halves of `backward`.
pub proof fn lemma_pairing_identity<T, U>(
    left: BiChannel<T, U>,
    right: BiChannel<U, T>,
    forward: (Sender<U>, Receiver<U>),
    backward: (Sender<T>, Receiver<T>),
)
    requires
        cross_wired(left, right, forward, backward),
    ensures
        (left.tx, right.rx) == forward,
        (right.tx, left.rx) == backward,
{
}

/// Pairing is symmetric: the right endpoint of a pair stands to the left one
/// as a left endpoint does to its right one, with the two channels swapped.
pub proof fn lemma_pairing_symmetric<T, U>(
    left: BiChannel<T, U>,
    right: BiChannel<U, T>,
    forward: (Sender<U>, Receiver<U>),
    backward: (Sender<T>, Receiver<T>),
)
    requires
        cross_wired(left, right, forward, backward),
    ensures
        cross_wired(right, left, backward, forward),
{
}

/// Builds a pair of endpoints from two unidirectional channels: `forward`
/// carries the left endpoint's messages to the right one, `backward` the
/// right endpoint's messages to the left one.
pub fn cross_wire<T, U>(forward: (Sender<U>, Receiver<U>), backward: (Sender<T>, Receiver<T>)) -> (pair: (
    BiChannel<T, U>,
    BiChannel<U, T>,
))
    ensures
        cross_wired(pair.0, pair.1, forward, backward),
{
    let (forward_tx, forward_rx) = forward;
    let (backward_tx, backward_rx) = backward;
    (BiChannel::new(forward_tx, backward_rx), BiChannel::new(backward_tx, forward_rx))
}

/// Creates a bi-directional channel whose two directions each buffer up to
/// `cap` messages; with `cap == 0` every send waits for a matching receive.
/// `T` is what the left endpoint receives and the right one sends, `U` the
/// reverse. Nothing guards against both sides waiting on each other.
pub fn bounded<T, U>(cap: usize) -> (pair: (BiChannel<T, U>, BiChannel<U, T>))
    requires
        bounded_capacity_fits::<T>(cap),
        bounded_capacity_fits::<U>(cap),
{
    let forward = bounded_channel::<U>(cap);
    let backward = bounded_channel::<T>(cap);
    cross_wire(forward, backward)
}

/// Like `bounded`, but first checks that buffers of `cap` messages can be
/// allocated in both directions, and returns `None` where they cannot.
pub fn try_bounded<T, U>(cap: usize) -> (r: Option<(BiChannel<T, U>, BiChannel<U, T>)>)
    ensures
        r is Some <==> bounded_capacity_fits::<T>(cap) && bounded_capacity_fits::<U>(cap),
{
    if capacity_fits::<T>(cap) && capacity_fits::<U>(cap) {
        Some(bounded(cap))
    } else {
        None
    }
}

/// Creates a bi-directional channel that buffers any number of messages in
/// either direction. `T` is what the left endpoint receives and the right
/// one sends, `U` the reverse.
pub fn unbounded<T, U>() -> (pair: (BiChannel<T, U>, BiChannel<U, T>)) {
    let forward = unbounded_channel::<U>();
    let backward = unbounded_channel::<T>();
    cross_wire(forward, backward)
}

impl<T, U> BiChannel<T, U> {
    /// An endpoint that sends on `tx` and receives on `rx`.
    pub fn new(tx: Sender<U>, rx: Receiver<T>) -> (r: Self)
        ensures
            r.tx == tx,
            r.rx == rx,
    {
        BiChannel { rx, tx }
    }

    /// Sends `msg` to the peer, waiting while the direction is full (or,
    /// for a rendezvous pair, until the peer receives). Fails only when the
    /// peer's receiving side is gone, and then hands `msg` back.
    pub fn send(&self, msg: U) -> (r: Result<(), SendFailure<U>>)
        ensures
            r matches Err(e) ==> e.0 == msg,
    {
        match self.tx.send(msg) {
            Ok(()) => Ok(()),
            Err(e) => Err(SendFailure::from(e)),
        }
    }

    /// Sends `msg` to the peer if that can be done without waiting;
    /// otherwise hands `msg` back with the reason.
    pub fn try_send(&self, msg: U) -> (r: Result<(), TrySendFailure<U>>)
        ensures
            r matches Err(e) ==> e.message() == msg,
    {
        match self.tx.try_send(msg) {
            Ok(()) => Ok(()),
            Err(e) => Err(TrySendFailure::from(e)),
        }
    }

    /// Waits for the peer's next message. `None` means that the peer's
    /// sending side is gone and every message it sent has been received.
    pub fn recv(&self) -> Option<T> {
        match self.rx.recv() {
            Ok(m) => Some(m),
            Err(_) => None,
        }
    }

    /// Takes the peer's next message if one is ready now.
    pub fn try_recv(&self) -> Result<T, TryRecvFailure> {
        match self.rx.try_recv() {
            Ok(m) => Ok(m),
            Err(e) => Err(TryRecvFailure::from(e)),
        }
    }
}

} // verus!
