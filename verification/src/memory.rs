//! The allocator calls that bounded growth rests on.

use std::sync::Arc;

use vstd::prelude::*;

verus! {

/// Calls `Vec::try_reserve_exact`. A request for no element is granted, since the capacity already
/// suffices. Of any other nothing is claimed of whether the allocator grants it; either way the
/// elements are the same as before.
#[verifier::external_body]
pub(crate) fn try_reserve_exact<T>(values: &mut Vec<T>, additional: usize) -> (granted: bool)
    ensures
        final(values)@ == old(values)@,
        additional == 0 ==> granted,
{
    values.try_reserve_exact(additional).is_ok()
}

/// Calls `Vec::capacity`. A vector holds at least its own elements, and no vector takes more than
/// `isize::MAX` bytes: whatever would grow it beyond is refused. How much it holds between the two
/// is up to the allocator and nothing is claimed of it.
#[verifier::external_body]
pub(crate) fn capacity_of<T>(values: &Vec<T>) -> (capacity: usize)
    ensures
        capacity >= values@.len(),
        capacity * vstd::layout::size_of::<T>() <= isize::MAX,
{
    values.capacity()
}

/// Calls `Arc::clone`. Both owners share the one value.
#[verifier::external_body]
pub(crate) fn share<T>(value: &Arc<T>) -> (shared: Arc<T>)
    ensures
        shared == *value,
{
    Arc::clone(value)
}

} // verus!
