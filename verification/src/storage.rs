//! Up-front storage reservation for bounded collections.
use std::collections::VecDeque;
use vstd::prelude::*;

verus! {

/// Reserves room for `additional` more elements of a vector without
/// panicking; calls `Vec::try_reserve_exact`.
///
/// Claimed of the call: the contents are unchanged whatever it returns;
/// reserving nothing succeeds, since the capacity is already sufficient;
/// and a request for more than `isize::MAX` bytes fails, as a capacity
/// overflow. Whether any other reservation succeeds depends on the
/// allocator and the machine, and is left open.
#[verifier::external_body]
pub(crate) fn reserve_vec<T>(vector: &mut Vec<T>, additional: usize) -> (reserved: bool)
    ensures
        final(vector)@ == old(vector)@,
        additional == 0 ==> reserved,
        additional * vstd::layout::size_of::<T>() > isize::MAX ==> !reserved,
{
    vector.try_reserve_exact(additional).is_ok()
}

/// Reserves room for `additional` more elements of a double-ended queue
/// without panicking; calls `VecDeque::try_reserve_exact`.
///
/// Claimed of the call: the contents are unchanged whatever it returns;
/// reserving nothing succeeds, since the capacity is already sufficient;
/// and a request for more than `isize::MAX` bytes fails, as a capacity
/// overflow. Whether any other reservation succeeds depends on the
/// allocator and the machine, and is left open.
#[verifier::external_body]
pub(crate) fn reserve_deque<T>(queue: &mut VecDeque<T>, additional: usize) -> (reserved: bool)
    ensures
        final(queue)@ == old(queue)@,
        additional == 0 ==> reserved,
        additional * vstd::layout::size_of::<T>() > isize::MAX ==> !reserved,
{
    queue.try_reserve_exact(additional).is_ok()
}

/// Copies bytes into owned storage.
pub(crate) fn copy_bytes(source: &[u8]) -> (copy: Vec<u8>)
    ensures
        copy@ == source@,
{
    let mut copy: Vec<u8> = Vec::new();
    let mut index: usize = 0;
    while index < source.len()
        invariant
            index <= source@.len(),
            copy@ == source@.subrange(0, index as int),
        decreases source@.len() - index,
    {
        copy.push(source[index]);
        index = index + 1;
        proof {
            assert(copy@ =~= source@.subrange(0, index as int));
        }
    }
    proof {
        assert(source@.subrange(0, source@.len() as int) =~= source@);
    }
    copy
}

} // verus!
