//! Small byte-buffer helpers.

use vstd::prelude::*;

verus! {

/// Copies bytes from `from` into the front of `to`, as many as both
/// buffers can hold, and returns how many were copied.
pub fn byte_copy(from: &[u8], to: &mut [u8]) -> (count: usize)
    ensures
        count == if from@.len() <= old(to)@.len() {
            from@.len()
        } else {
            old(to)@.len()
        },
        final(to)@.len() == old(to)@.len(),
        forall|k: int| 0 <= k < count ==> final(to)@[k] == from@[k],
        forall|k: int| count <= k < old(to)@.len() ==> final(to)@[k] == old(to)@[k],
{
    let count = if from.len() <= to.len() {
        from.len()
    } else {
        to.len()
    };
    let mut k: usize = 0;
    while k < count
        invariant
            k <= count,
            count <= from@.len(),
            count <= to@.len(),
            to@.len() == old(to)@.len(),
            forall|j: int| 0 <= j < k ==> to@[j] == from@[j],
            forall|j: int| k <= j < to@.len() ==> to@[j] == old(to)@[j],
        decreases count - k,
    {
        to[k] = from[k];
        k = k + 1;
    }
    count
}

} // verus!
