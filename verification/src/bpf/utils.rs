//! Helpers for writing BPF programs.
use vstd::prelude::*;
use vstd::slice::slice_subrange;

verus! {

/// The bytes of `slice` from `begin` up to `end`, without `end`.
pub fn get_unsafe_slice_range(slice: &[u8], begin: usize, end: usize) -> (range: &[u8])
    requires
        begin <= end <= slice@.len(),
    ensures
        range@ == slice@.subrange(begin as int, end as int),
{
    slice_subrange(slice, begin, end)
}

} // verus!
