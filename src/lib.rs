//! Bi-directional channels: two endpoints, each able to send to and receive
//! from the other, built from a pair of crossbeam channels threaded in
//! opposite directions.
pub mod capacity;
mod crossbeam;
pub mod endpoint;
pub mod error;
pub mod operand;

pub use capacity::capacity_fits;
pub use endpoint::{bounded, cross_wire, try_bounded, unbounded, BiChannel};
pub use error::{SendFailure, TryRecvFailure, TrySendFailure};
pub use operand::{RecvOperand, SendOperand};
