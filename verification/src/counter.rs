//! Counters that stay at the top of their range instead of wrapping.

use vstd::prelude::*;

verus! {

/// The count after one more: the next number, or the count itself once it
/// is at the top.
pub open spec fn one_more(count: u64) -> u64 {
    if count < u64::MAX {
        (count + 1) as u64
    } else {
        count
    }
}

/// The count after one more.
pub fn count_one_more(count: u64) -> (next: u64)
    ensures
        next == one_more(count),
{
    if count < u64::MAX {
        count + 1
    } else {
        count
    }
}

} // verus!
