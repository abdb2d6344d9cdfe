//! The kernel's helpers for maps, as a BPF program calls them.
//!
//! A helper runs inside the kernel. Each function here is what the program
//! makes of a helper's answer, and what it has to hand to the helper.
use crate::error::{libbpf_sys_error, Error, LibbpfError};
use crate::libbpf::{BpfMapDef, BpfUpdateElemFlags, XdpAction};
use crate::utils::map_libbpf_error;
use core::marker::PhantomData;
use vstd::prelude::*;

verus! {

/// A value that lies in the memory of a map, known by its address. It stands
/// for the right to read and write that value while the map is borrowed: it
/// cannot outlive the borrow of the map that it was looked up in.
pub struct MapValueRef<'a, U> {
    address: usize,
    map: PhantomData<&'a U>,
}

impl<'a, U> MapValueRef<'a, U> {
    pub closed spec fn spec_address(&self) -> usize {
        self.address
    }

    /// Where the value lies.
    #[verifier::when_used_as_spec(spec_address)]
    pub fn address(&self) -> (address: usize)
        ensures
            address == self.spec_address(),
    {
        self.address
    }
}

/// The value that `map` holds for the key that was asked for, given the
/// address `value` that the kernel's helper answered: 0 where the map holds
/// nothing for the key.
pub fn bpf_map_lookup_elem<'a, T, U>(map: &'a BpfMapDef<T, U>, value: usize) -> (r: Option<
    MapValueRef<'a, U>,
>)
    ensures
        value == 0 ==> r is None,
        value != 0 ==> (r matches Some(found) && found.spec_address() == value),
{
    if value == 0 {
        None
    } else {
        Some(MapValueRef { address: value, map: PhantomData })
    }
}

/// What the kernel's helper is handed as the flags of an update.
pub fn update_flags_argument(flags: BpfUpdateElemFlags) -> (argument: u64)
    ensures
        argument == flags.spec_bits(),
{
    flags.bits() as u64
}

/// What an update of a map came to, given the status `r` that the kernel's
/// helper returned. A negative status is a failure.
pub fn bpf_map_update_elem(r: i32) -> (done: Result<(), Error>)
    ensures
        r >= 0 ==> done == Ok::<(), Error>(()),
        r < 0 ==> (done matches Err(e) && e@ == libbpf_sys_error("bpf_map_update_elem"@, r)),
{
    if r < 0 {
        return map_libbpf_error("bpf_map_update_elem", LibbpfError::LibbpfSys(r));
    }
    Ok(())
}

/// What the kernel's helper is handed as the flags of a redirection: the
/// number of the verdict that stands in where the redirection cannot be made.
/// Only a verdict that ends the handling of a packet can stand in.
pub fn redirect_flags_argument(default_action: XdpAction) -> (argument: u64)
    requires
        default_action.spec_is_terminal(),
    ensures
        argument == default_action.spec_as_u32(),
        argument <= XdpAction::TX.spec_as_u32(),
{
    default_action.as_u32() as u64
}

/// The verdict of a redirection, given the number `r` that the kernel's
/// helper answered: the verdict of that number, and `default_action` where no
/// verdict has that number.
pub open spec fn redirect_verdict(default_action: XdpAction, r: i32) -> XdpAction {
    match XdpAction::spec_from_i32(r) {
        Some(action) => action,
        None => default_action,
    }
}

/// The verdict of a redirection through `map` to the target `key`, given the
/// number `r` that the kernel's helper answered. The helper answers
/// `REDIRECT` where it made the redirection and the number it was handed as
/// flags where it could not; `default_action` is what it was handed. A
/// redirection cannot stand in for itself: `default_action` is a verdict that
/// ends the handling of the packet.
pub fn bpf_redirect_map<U>(
    map: &BpfMapDef<u32, U>,
    key: &u32,
    default_action: XdpAction,
    r: i32,
) -> (action: XdpAction)
    requires
        default_action.spec_is_terminal(),
    ensures
        action == redirect_verdict(default_action, r),
        r == XdpAction::REDIRECT.spec_as_u32() ==> action == XdpAction::REDIRECT,
        r == default_action.spec_as_u32() ==> action == default_action,
{
    match XdpAction::from_i32(r) {
        Some(action) => action,
        None => default_action,
    }
}

} // verus!
