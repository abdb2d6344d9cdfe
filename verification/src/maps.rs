//! What every typed map has in common, inside the kernel and outside it.
use crate::error::{libbpf_sys_error, Error};
use crate::libbpf::BpfUpdateElemFlags;
use vstd::prelude::*;

verus! {

/// A map whose keys and values have the types `Key` and `Value`.
pub trait TypedMap {
    type Key;

    type Value;
}

/// A map that a BPF program can write into.
pub trait Update: TypedMap {
    /// What writing `value` under `key` came to, given the status `r` that
    /// the kernel's helper returned. A negative status is a failure: the
    /// flags forbid the write, or the map is full.
    fn update(
        &mut self,
        key: &Self::Key,
        value: &Self::Value,
        flags: BpfUpdateElemFlags,
        r: i32,
    ) -> (done: Result<(), Error>)
        ensures
            r >= 0 ==> done == Ok::<(), Error>(()),
            r < 0 ==> (done matches Err(e) && e@ == libbpf_sys_error("bpf_map_update_elem"@, r)),
    ;
}

} // verus!
