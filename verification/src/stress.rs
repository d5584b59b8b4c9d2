//! A recursive stack-stress routine for exercising the guard zone: each call
//! deepens the stack by one frame until the counter reaches the limit. The
//! limit is an explicit, always-finite maximum depth — there is no unbounded
//! mode — so the routine itself always returns; what it is for is driving
//! the stack toward the guard zone under a caller-chosen depth.

use vstd::prelude::*;

verus! {

/// Recursively increment `i` until it reaches `limit`, one stack frame per
/// step, and return the final value: `limit`, or `i + 1` where the counter
/// already starts at or past the limit.
pub fn test(i: i32, limit: i32) -> (r: i32)
    requires
        0 <= limit,
        i < i32::MAX,
    ensures
        r == if i + 1 >= limit {
            i + 1
        } else {
            limit as int
        },
    decreases limit - i,
{
    let next = i + 1;
    if next < limit {
        test(next, limit)
    } else {
        next
    }
}

} // verus!
