use vstd::prelude::*;

verus! {

/// The number of indices that an indexed draw of a loaded mesh covers: all of them.
/// The count must fit in the `u32` range that indexed draws take.
pub fn index_count(indices: &[u16]) -> (count: u32)
    requires
        indices@.len() <= u32::MAX,
    ensures
        count == indices@.len(),
{
    indices.len() as u32
}

} // verus!
