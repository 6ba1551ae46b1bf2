//! The two capabilities through which a channel-like value takes part in a
//! crossbeam selection: offering a channel to receive from, and offering a
//! channel to send on. Endpoints offer them by handing out their underlying
//! channel halves, as crossbeam's own halves do by handing out themselves.
use crate::endpoint::BiChannel;
use crossbeam_channel::{Receiver, Sender};
use vstd::prelude::*;

verus! {

/// A value that can stand as a receive operand of a selection.
pub trait RecvOperand<T> {
    /// The channel that a receive through this operand takes from.
    spec fn inbound(&self) -> Receiver<T>;

    /// The receiving half to register with a selection.
    fn recv_operand(&self) -> (r: &Receiver<T>)
        ensures
            *r == self.inbound(),
    ;
}

/// A value that can stand as a send operand of a selection.
pub trait SendOperand<T> {
    /// The channel that a send through this operand puts into.
    spec fn outbound(&self) -> Sender<T>;

    /// The sending half to register with a selection.
    fn send_operand(&self) -> (r: &Sender<T>)
        ensures
            *r == self.outbound(),
    ;
}

impl<T, U> RecvOperand<T> for BiChannel<T, U> {
    open spec fn inbound(&self) -> Receiver<T> {
        self.rx
    }

    fn recv_operand(&self) -> (r: &Receiver<T>) {
        &self.rx
    }
}

impl<T, U> SendOperand<U> for BiChannel<T, U> {
    open spec fn outbound(&self) -> Sender<U> {
        self.tx
    }

    fn send_operand(&self) -> (r: &Sender<U>) {
        &self.tx
    }
}

impl<T> RecvOperand<T> for Receiver<T> {
    open spec fn inbound(&self) -> Receiver<T> {
        *self
    }

    fn recv_operand(&self) -> (r: &Receiver<T>) {
        self
    }
}

impl<T> SendOperand<T> for Sender<T> {
    open spec fn outbound(&self) -> Sender<T> {
        *self
    }

    fn send_operand(&self) -> (r: &Sender<T>) {
        self
    }
}

} // verus!
