//! The maps that a BPF program declares, by kind. What a map can do is said
//! by the traits that its type has.
use crate::error::Error;
use crate::helpers::{
    bpf_map_lookup_elem, bpf_map_update_elem, bpf_redirect_map, redirect_verdict, MapValueRef,
};
use crate::libbpf::{BpfMapDef, BpfMapType, BpfUpdateElemFlags, RawMapDef, XdpAction};
use crate::libbpf::size_as_u32;
use crate::maps::{TypedMap, Update};
use vstd::prelude::*;

verus! {

/// A map that a program can redirect packets through, to a network device, a
/// CPU or a socket.
pub trait Redirect: TypedMap {
    /// The verdict of a redirection to `target`, given the number `r` that
    /// the kernel's helper answered; `default_action` is the verdict that the
    /// helper was told to answer where it cannot redirect. It is a verdict
    /// that ends the handling of the packet: never `REDIRECT`.
    fn redirect_or(&self, target: Self::Key, default_action: XdpAction, r: i32) -> (action:
        XdpAction)
        requires
            default_action.spec_is_terminal(),
        ensures
            action == redirect_verdict(default_action, r),
    ;

    /// The verdict of a redirection to `target` that aborts where the kernel
    /// cannot redirect, given the number `r` that the kernel's helper
    /// answered.
    fn redirect(&self, target: Self::Key, r: i32) -> (action: XdpAction)
        ensures
            action == redirect_verdict(XdpAction::ABORTED, r),
    {
        self.redirect_or(target, XdpAction::ABORTED, r)
    }
}

/// A map in which a program can look a value up and change it in place.
pub trait LookupMut: TypedMap {
    /// The value that the map holds for `key`, given the address `value`
    /// that the kernel's helper answered: 0 where the map holds nothing for
    /// the key. The value lies in the kernel's memory, which other CPUs may
    /// be writing; what comes back stands for it only while the map is
    /// borrowed.
    fn lookup_mut<'a>(&'a self, key: &Self::Key, value: usize) -> (r: Option<
        MapValueRef<'a, Self::Value>,
    >)
        ensures
            value == 0 ==> r is None,
            value != 0 ==> (r matches Some(found) && found.spec_address() == value),
    ;
}

/// A map that sends packets to CPUs: a program redirects a packet to the CPU
/// in the slot that it names.
pub struct CpuMap {
    def: BpfMapDef<u32, u32>,
}

impl CpuMap {
    /// The definition that the kernel reads.
    pub closed spec fn def(&self) -> RawMapDef {
        self.def.raw()
    }

    /// A map with room for `max_entries` entries.
    pub fn new(max_entries: u32) -> (map: CpuMap)
        ensures
            map.def() == (RawMapDef {
                type_: BpfMapType::CPUMAP.spec_as_u32(),
                key_size: size_as_u32::<u32>(),
                value_size: size_as_u32::<u32>(),
                max_entries,
                map_flags: 0,
            }),
    {
        CpuMap { def: BpfMapDef::new(BpfMapType::CPUMAP, max_entries) }
    }

    /// The definition of the map.
    pub fn map_def(&self) -> (def: &BpfMapDef<u32, u32>)
        ensures
            def.raw() == self.def(),
    {
        &self.def
    }
}

impl TypedMap for CpuMap {
    type Key = u32;

    type Value = u32;
}

impl Redirect for CpuMap {
    fn redirect_or(&self, target: u32, default_action: XdpAction, r: i32) -> (action: XdpAction) {
        bpf_redirect_map(&self.def, &target, default_action, r)
    }
}

/// A map that sends packets to sockets outside the kernel: a program
/// redirects a packet to the socket in the slot that it names.
pub struct XskMap {
    def: BpfMapDef<u32, u32>,
}

impl XskMap {
    /// The definition that the kernel reads.
    pub closed spec fn def(&self) -> RawMapDef {
        self.def.raw()
    }

    /// A map with room for `max_entries` entries.
    pub fn new(max_entries: u32) -> (map: XskMap)
        ensures
            map.def() == (RawMapDef {
                type_: BpfMapType::XSKMAP.spec_as_u32(),
                key_size: size_as_u32::<u32>(),
                value_size: size_as_u32::<u32>(),
                max_entries,
                map_flags: 0,
            }),
    {
        XskMap { def: BpfMapDef::new(BpfMapType::XSKMAP, max_entries) }
    }

    /// The definition of the map.
    pub fn map_def(&self) -> (def: &BpfMapDef<u32, u32>)
        ensures
            def.raw() == self.def(),
    {
        &self.def
    }
}

impl TypedMap for XskMap {
    type Key = u32;

    type Value = u32;
}

impl Redirect for XskMap {
    fn redirect_or(&self, target: u32, default_action: XdpAction, r: i32) -> (action: XdpAction) {
        bpf_redirect_map(&self.def, &target, default_action, r)
    }
}

/// A map that sends packets to other network devices: a program redirects a
/// packet to the device in the slot that it names.
pub struct DevMap {
    def: BpfMapDef<u32, u32>,
}

impl DevMap {
    /// The definition that the kernel reads.
    pub closed spec fn def(&self) -> RawMapDef {
        self.def.raw()
    }

    /// A map with room for `max_entries` entries.
    pub fn new(max_entries: u32) -> (map: DevMap)
        ensures
            map.def() == (RawMapDef {
                type_: BpfMapType::DEVMAP.spec_as_u32(),
                key_size: size_as_u32::<u32>(),
                value_size: size_as_u32::<u32>(),
                max_entries,
                map_flags: 0,
            }),
    {
        DevMap { def: BpfMapDef::new(BpfMapType::DEVMAP, max_entries) }
    }

    /// The definition of the map.
    pub fn map_def(&self) -> (def: &BpfMapDef<u32, u32>)
        ensures
            def.raw() == self.def(),
    {
        &self.def
    }
}

impl TypedMap for DevMap {
    type Key = u32;

    type Value = u32;
}

impl Redirect for DevMap {
    fn redirect_or(&self, target: u32, default_action: XdpAction, r: i32) -> (action: XdpAction) {
        bpf_redirect_map(&self.def, &target, default_action, r)
    }
}

/// A map that is an array of values of type `T`.
pub struct Array<T> {
    def: BpfMapDef<u32, T>,
}

impl<T> Array<T> {
    /// The definition that the kernel reads.
    pub closed spec fn def(&self) -> RawMapDef {
        self.def.raw()
    }

    /// A map with room for `max_entries` entries.
    pub fn new(max_entries: u32) -> (map: Array<T>)
        ensures
            map.def() == (RawMapDef {
                type_: BpfMapType::ARRAY.spec_as_u32(),
                key_size: size_as_u32::<u32>(),
                value_size: size_as_u32::<T>(),
                max_entries,
                map_flags: 0,
            }),
    {
        Array { def: BpfMapDef::new(BpfMapType::ARRAY, max_entries) }
    }

    /// The definition of the map.
    pub fn map_def(&self) -> (def: &BpfMapDef<u32, T>)
        ensures
            def.raw() == self.def(),
    {
        &self.def
    }
}

impl<T> TypedMap for Array<T> {
    type Key = u32;

    type Value = T;
}

impl<T> LookupMut for Array<T> {
    fn lookup_mut<'a>(&'a self, key: &u32, value: usize) -> (r: Option<MapValueRef<'a, T>>) {
        bpf_map_lookup_elem(&self.def, value)
    }
}

impl<T> Update for Array<T> {
    fn update(&mut self, key: &u32, value: &T, flags: BpfUpdateElemFlags, r: i32) -> (done: Result<
        (),
        Error,
    >) {
        bpf_map_update_elem(r)
    }
}

/// A map that is an array of values of type `T`, kept once per CPU.
pub struct PerCpuArray<T> {
    def: BpfMapDef<u32, T>,
}

impl<T> PerCpuArray<T> {
    /// The definition that the kernel reads.
    pub closed spec fn def(&self) -> RawMapDef {
        self.def.raw()
    }

    /// A map with room for `max_entries` entries.
    pub fn new(max_entries: u32) -> (map: PerCpuArray<T>)
        ensures
            map.def() == (RawMapDef {
                type_: BpfMapType::PERCPU_ARRAY.spec_as_u32(),
                key_size: size_as_u32::<u32>(),
                value_size: size_as_u32::<T>(),
                max_entries,
                map_flags: 0,
            }),
    {
        PerCpuArray { def: BpfMapDef::new(BpfMapType::PERCPU_ARRAY, max_entries) }
    }

    /// The definition of the map.
    pub fn map_def(&self) -> (def: &BpfMapDef<u32, T>)
        ensures
            def.raw() == self.def(),
    {
        &self.def
    }
}

impl<T> TypedMap for PerCpuArray<T> {
    type Key = u32;

    type Value = T;
}

impl<T> LookupMut for PerCpuArray<T> {
    fn lookup_mut<'a>(&'a self, key: &u32, value: usize) -> (r: Option<MapValueRef<'a, T>>) {
        bpf_map_lookup_elem(&self.def, value)
    }
}

impl<T> Update for PerCpuArray<T> {
    fn update(&mut self, key: &u32, value: &T, flags: BpfUpdateElemFlags, r: i32) -> (done: Result<
        (),
        Error,
    >) {
        bpf_map_update_elem(r)
    }
}

} // verus!
