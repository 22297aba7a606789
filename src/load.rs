use vstd::prelude::*;

verus! {

/// Counts from zero up to `limit`, one step at a time, and returns the final
/// count. Its only purpose is to keep a processor busy.
pub fn count_to(limit: u32) -> (r: u32)
    ensures
        r == limit,
{
    let mut i: u32 = 0;
    while i < limit
        invariant
            i <= limit,
        decreases limit - i,
    {
        i = i + 1;
    }
    i
}

} // verus!
