//! How large a bounded channel can be: its buffer must be addressable.
use vstd::layout::{align_of, size_of};
use vstd::prelude::*;

verus! {

/// Whether a bounded channel of `cap` slots for messages of type `T` can be
/// allocated without overflowing the address space. crossbeam keeps each
/// message in a slot beside an index-sized stamp, so a slot takes at most
/// the message's size, its alignment and sixteen bytes.
pub open spec fn bounded_capacity_fits<T>(cap: usize) -> bool {
    cap as int * (size_of::<T>() + align_of::<T>() + 16) <= isize::MAX as int
}

/// Decides `bounded_capacity_fits::<T>(cap)` from the layout of `T`.
pub fn capacity_fits<T>(cap: usize) -> (b: bool)
    ensures
        b == bounded_capacity_fits::<T>(cap),
{
    let slot: u128 = core::mem::size_of::<T>() as u128 + core::mem::align_of::<T>() as u128 + 16;
    let limit: u128 = isize::MAX as u128;
    if slot > limit {
        proof {
            let s = size_of::<T>() + align_of::<T>() + 16;
            assert(slot as int == s);
            assert((cap == 0) == (cap as int * s <= limit)) by (nonlinear_arith)
                requires
                    s > limit,
                    limit >= 0,
            ;
        }
        cap == 0
    } else {
        proof {
            assert(cap as int * slot <= usize::MAX as int * limit) by (nonlinear_arith)
                requires
                    0 <= cap <= usize::MAX,
                    0 <= slot <= limit,
            ;
        }
        assert(slot as int == size_of::<T>() + align_of::<T>() + 16);
        cap as u128 * slot <= limit
    }
}

} // verus!
