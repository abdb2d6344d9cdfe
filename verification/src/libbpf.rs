//! The kernel's BPF objects as typed values: the kinds of programs and maps,
//! the flags and verdicts that travel to and from the kernel, handles to loaded
//! objects, and what each answer of the kernel's BPF interface means.
//!
//! The kernel numbers the kinds of programs and maps, the update flags and the
//! XDP verdicts. The numbers written here are those of the kernel's interface.
use crate::error::{libbpf_sys_error, Error, ErrorView, LibbpfError};
use crate::interface::Interface;
use crate::utils::{
    c_char_pointer_to_string, c_str_bytes, c_string_error, map_libbpf_error, path_error,
    path_to_cstring, str_to_cstring,
};
use core::marker::PhantomData;
use vstd::prelude::*;
use vstd::utf8::{decode_utf8, valid_utf8};

verus! {

/// The kind of a BPF program.
#[allow(non_camel_case_types)]
#[derive(Debug, Clone, Copy, PartialEq, Eq, Structural)]
pub enum BpfProgType {
    UNSPEC,
    SOCKET_FILTER,
    KPROBE,
    SCHED_CLS,
    SCHED_ACT,
    TRACEPOINT,
    XDP,
    PERF_EVENT,
    CGROUP_SKB,
    CGROUP_SOCK,
    LWT_IN,
    LWT_OUT,
    LWT_XMIT,
    SOCK_OPS,
    SK_SKB,
    CGROUP_DEVICE,
    SK_MSG,
    RAW_TRACEPOINT,
    CGROUP_SOCK_ADDR,
    LWT_SEG6LOCAL,
    LIRC_MODE2,
    SK_REUSEPORT,
    FLOW_DISSECTOR,
    CGROUP_SYSCTL,
    RAW_TRACEPOINT_WRITABLE,
    CGROUP_SOCKOPT,
}

impl BpfProgType {
    /// The number by which the kernel knows this kind of program.
    pub open spec fn spec_as_u32(self) -> u32 {
        match self {
            BpfProgType::UNSPEC => 0,
            BpfProgType::SOCKET_FILTER => 1,
            BpfProgType::KPROBE => 2,
            BpfProgType::SCHED_CLS => 3,
            BpfProgType::SCHED_ACT => 4,
            BpfProgType::TRACEPOINT => 5,
            BpfProgType::XDP => 6,
            BpfProgType::PERF_EVENT => 7,
            BpfProgType::CGROUP_SKB => 8,
            BpfProgType::CGROUP_SOCK => 9,
            BpfProgType::LWT_IN => 10,
            BpfProgType::LWT_OUT => 11,
            BpfProgType::LWT_XMIT => 12,
            BpfProgType::SOCK_OPS => 13,
            BpfProgType::SK_SKB => 14,
            BpfProgType::CGROUP_DEVICE => 15,
            BpfProgType::SK_MSG => 16,
            BpfProgType::RAW_TRACEPOINT => 17,
            BpfProgType::CGROUP_SOCK_ADDR => 18,
            BpfProgType::LWT_SEG6LOCAL => 19,
            BpfProgType::LIRC_MODE2 => 20,
            BpfProgType::SK_REUSEPORT => 21,
            BpfProgType::FLOW_DISSECTOR => 22,
            BpfProgType::CGROUP_SYSCTL => 23,
            BpfProgType::RAW_TRACEPOINT_WRITABLE => 24,
            BpfProgType::CGROUP_SOCKOPT => 25,
        }
    }

    #[verifier::when_used_as_spec(spec_as_u32)]
    pub fn as_u32(self) -> (code: u32)
        ensures
            code == self.spec_as_u32(),
    {
        match self {
            BpfProgType::UNSPEC => 0,
            BpfProgType::SOCKET_FILTER => 1,
            BpfProgType::KPROBE => 2,
            BpfProgType::SCHED_CLS => 3,
            BpfProgType::SCHED_ACT => 4,
            BpfProgType::TRACEPOINT => 5,
            BpfProgType::XDP => 6,
            BpfProgType::PERF_EVENT => 7,
            BpfProgType::CGROUP_SKB => 8,
            BpfProgType::CGROUP_SOCK => 9,
            BpfProgType::LWT_IN => 10,
            BpfProgType::LWT_OUT => 11,
            BpfProgType::LWT_XMIT => 12,
            BpfProgType::SOCK_OPS => 13,
            BpfProgType::SK_SKB => 14,
            BpfProgType::CGROUP_DEVICE => 15,
            BpfProgType::SK_MSG => 16,
            BpfProgType::RAW_TRACEPOINT => 17,
            BpfProgType::CGROUP_SOCK_ADDR => 18,
            BpfProgType::LWT_SEG6LOCAL => 19,
            BpfProgType::LIRC_MODE2 => 20,
            BpfProgType::SK_REUSEPORT => 21,
            BpfProgType::FLOW_DISSECTOR => 22,
            BpfProgType::CGROUP_SYSCTL => 23,
            BpfProgType::RAW_TRACEPOINT_WRITABLE => 24,
            BpfProgType::CGROUP_SOCKOPT => 25,
        }
    }
}

/// The kind of a BPF map.
#[allow(non_camel_case_types)]
#[derive(Debug, Clone, Copy, PartialEq, Eq, Structural)]
pub enum BpfMapType {
    UNSPEC,
    HASH,
    ARRAY,
    PROG_ARRAY,
    PERF_EVENT_ARRAY,
    PERCPU_HASH,
    PERCPU_ARRAY,
    STACK_TRACE,
    CGROUP_ARRAY,
    LRU_HASH,
    LRU_PERCPU_HASH,
    LPM_TRIE,
    ARRAY_OF_MAPS,
    HASH_OF_MAPS,
    DEVMAP,
    SOCKMAP,
    CPUMAP,
    XSKMAP,
    SOCKHASH,
    CGROUP_STORAGE,
    REUSEPORT_SOCKARRAY,
    PERCPU_CGROUP_STORAGE,
    QUEUE,
    STACK,
    SK_STORAGE,
    DEVMAP_HASH,
}

impl BpfMapType {
    /// The number by which the kernel knows this kind of map.
    pub open spec fn spec_as_u32(self) -> u32 {
        match self {
            BpfMapType::UNSPEC => 0,
            BpfMapType::HASH => 1,
            BpfMapType::ARRAY => 2,
            BpfMapType::PROG_ARRAY => 3,
            BpfMapType::PERF_EVENT_ARRAY => 4,
            BpfMapType::PERCPU_HASH => 5,
            BpfMapType::PERCPU_ARRAY => 6,
            BpfMapType::STACK_TRACE => 7,
            BpfMapType::CGROUP_ARRAY => 8,
            BpfMapType::LRU_HASH => 9,
            BpfMapType::LRU_PERCPU_HASH => 10,
            BpfMapType::LPM_TRIE => 11,
            BpfMapType::ARRAY_OF_MAPS => 12,
            BpfMapType::HASH_OF_MAPS => 13,
            BpfMapType::DEVMAP => 14,
            BpfMapType::SOCKMAP => 15,
            BpfMapType::CPUMAP => 16,
            BpfMapType::XSKMAP => 17,
            BpfMapType::SOCKHASH => 18,
            BpfMapType::CGROUP_STORAGE => 19,
            BpfMapType::REUSEPORT_SOCKARRAY => 20,
            BpfMapType::PERCPU_CGROUP_STORAGE => 21,
            BpfMapType::QUEUE => 22,
            BpfMapType::STACK => 23,
            BpfMapType::SK_STORAGE => 24,
            BpfMapType::DEVMAP_HASH => 25,
        }
    }

    #[verifier::when_used_as_spec(spec_as_u32)]
    pub fn as_u32(self) -> (code: u32)
        ensures
            code == self.spec_as_u32(),
    {
        match self {
            BpfMapType::UNSPEC => 0,
            BpfMapType::HASH => 1,
            BpfMapType::ARRAY => 2,
            BpfMapType::PROG_ARRAY => 3,
            BpfMapType::PERF_EVENT_ARRAY => 4,
            BpfMapType::PERCPU_HASH => 5,
            BpfMapType::PERCPU_ARRAY => 6,
            BpfMapType::STACK_TRACE => 7,
            BpfMapType::CGROUP_ARRAY => 8,
            BpfMapType::LRU_HASH => 9,
            BpfMapType::LRU_PERCPU_HASH => 10,
            BpfMapType::LPM_TRIE => 11,
            BpfMapType::ARRAY_OF_MAPS => 12,
            BpfMapType::HASH_OF_MAPS => 13,
            BpfMapType::DEVMAP => 14,
            BpfMapType::SOCKMAP => 15,
            BpfMapType::CPUMAP => 16,
            BpfMapType::XSKMAP => 17,
            BpfMapType::SOCKHASH => 18,
            BpfMapType::CGROUP_STORAGE => 19,
            BpfMapType::REUSEPORT_SOCKARRAY => 20,
            BpfMapType::PERCPU_CGROUP_STORAGE => 21,
            BpfMapType::QUEUE => 22,
            BpfMapType::STACK => 23,
            BpfMapType::SK_STORAGE => 24,
            BpfMapType::DEVMAP_HASH => 25,
        }
    }

    /// Whether `code` is the number of a kind of map that this crate knows.
    pub open spec fn is_known(code: u32) -> bool {
        exists|map_type: BpfMapType| map_type.spec_as_u32() == code
    }

    /// The kind of map that the kernel numbers `code`; `None` where this
    /// crate knows no such kind.
    pub fn from_u32(code: u32) -> (r: Option<BpfMapType>)
        ensures
            r is Some <==> Self::is_known(code),
            r matches Some(map_type) ==> map_type.spec_as_u32() == code,
    {
        let r = match code {
            0 => Some(BpfMapType::UNSPEC),
            1 => Some(BpfMapType::HASH),
            2 => Some(BpfMapType::ARRAY),
            3 => Some(BpfMapType::PROG_ARRAY),
            4 => Some(BpfMapType::PERF_EVENT_ARRAY),
            5 => Some(BpfMapType::PERCPU_HASH),
            6 => Some(BpfMapType::PERCPU_ARRAY),
            7 => Some(BpfMapType::STACK_TRACE),
            8 => Some(BpfMapType::CGROUP_ARRAY),
            9 => Some(BpfMapType::LRU_HASH),
            10 => Some(BpfMapType::LRU_PERCPU_HASH),
            11 => Some(BpfMapType::LPM_TRIE),
            12 => Some(BpfMapType::ARRAY_OF_MAPS),
            13 => Some(BpfMapType::HASH_OF_MAPS),
            14 => Some(BpfMapType::DEVMAP),
            15 => Some(BpfMapType::SOCKMAP),
            16 => Some(BpfMapType::CPUMAP),
            17 => Some(BpfMapType::XSKMAP),
            18 => Some(BpfMapType::SOCKHASH),
            19 => Some(BpfMapType::CGROUP_STORAGE),
            20 => Some(BpfMapType::REUSEPORT_SOCKARRAY),
            21 => Some(BpfMapType::PERCPU_CGROUP_STORAGE),
            22 => Some(BpfMapType::QUEUE),
            23 => Some(BpfMapType::STACK),
            24 => Some(BpfMapType::SK_STORAGE),
            25 => Some(BpfMapType::DEVMAP_HASH),
            _ => None,
        };
        proof {
            match r {
                Some(map_type) => {
                    assert(map_type.spec_as_u32() == code);
                },
                None => {
                    assert forall|map_type: BpfMapType| map_type.spec_as_u32() != code by {
                        assert(map_type.spec_as_u32() <= 25);
                    }
                },
            }
        }
        r
    }
}

/// No two kinds of map share a number.
pub proof fn lemma_map_type_code_is_unique(a: BpfMapType, b: BpfMapType)
    requires
        a.spec_as_u32() == b.spec_as_u32(),
    ensures
        a == b,
{
}

/// What an XDP program tells the kernel to do with a packet.
#[allow(non_camel_case_types)]
#[derive(Debug, Clone, Copy, PartialEq, Eq, Structural)]
pub enum XdpAction {
    ABORTED,
    DROP,
    PASS,
    TX,
    REDIRECT,
}

impl XdpAction {
    /// The number by which the kernel knows this verdict.
    pub open spec fn spec_as_u32(self) -> u32 {
        match self {
            XdpAction::ABORTED => 0,
            XdpAction::DROP => 1,
            XdpAction::PASS => 2,
            XdpAction::TX => 3,
            XdpAction::REDIRECT => 4,
        }
    }

    #[verifier::when_used_as_spec(spec_as_u32)]
    pub fn as_u32(self) -> (code: u32)
        ensures
            code == self.spec_as_u32(),
    {
        match self {
            XdpAction::ABORTED => 0,
            XdpAction::DROP => 1,
            XdpAction::PASS => 2,
            XdpAction::TX => 3,
            XdpAction::REDIRECT => 4,
        }
    }

    /// The verdict that the kernel numbers `code`, if there is one.
    pub open spec fn spec_from_i32(code: i32) -> Option<XdpAction> {
        if code == 0 {
            Some(XdpAction::ABORTED)
        } else if code == 1 {
            Some(XdpAction::DROP)
        } else if code == 2 {
            Some(XdpAction::PASS)
        } else if code == 3 {
            Some(XdpAction::TX)
        } else if code == 4 {
            Some(XdpAction::REDIRECT)
        } else {
            None
        }
    }

    #[verifier::when_used_as_spec(spec_from_i32)]
    pub fn from_i32(code: i32) -> (r: Option<XdpAction>)
        ensures
            r == Self::spec_from_i32(code),
    {
        match code {
            0 => Some(XdpAction::ABORTED),
            1 => Some(XdpAction::DROP),
            2 => Some(XdpAction::PASS),
            3 => Some(XdpAction::TX),
            4 => Some(XdpAction::REDIRECT),
            _ => None,
        }
    }

    /// A verdict that ends the handling of a packet by itself: every verdict
    /// but `REDIRECT`. Only such a verdict can stand in for a redirection
    /// that the kernel could not make.
    pub open spec fn spec_is_terminal(self) -> bool {
        self != XdpAction::REDIRECT
    }

    #[verifier::when_used_as_spec(spec_is_terminal)]
    pub fn is_terminal(self) -> (b: bool)
        ensures
            b == self.spec_is_terminal(),
            b <==> self.spec_as_u32() <= XdpAction::TX.spec_as_u32(),
    {
        self.as_u32() <= XdpAction::TX.as_u32()
    }
}

/// A verdict is found again from its number, and a number that names a
/// verdict is the number of that verdict.
pub proof fn lemma_xdp_action_code_round_trip(action: XdpAction, code: i32)
    ensures
        XdpAction::spec_from_i32(action.spec_as_u32() as i32) == Some(action),
        XdpAction::spec_from_i32(code) matches Some(a) ==> a.spec_as_u32() == code,
        XdpAction::spec_from_i32(code) is Some <==> 0 <= code <= 4,
{
}

/// The verdicts that can stand in for a redirection are `ABORTED`, `DROP`,
/// `PASS` and `TX`: those whose number is not above that of `TX`. `REDIRECT`
/// is none of them.
pub proof fn lemma_terminal_actions(action: XdpAction)
    ensures
        action.spec_is_terminal() <==> action.spec_as_u32() <= XdpAction::TX.spec_as_u32(),
        action.spec_is_terminal() <==> (action == XdpAction::ABORTED || action == XdpAction::DROP
            || action == XdpAction::PASS || action == XdpAction::TX),
        !XdpAction::REDIRECT.spec_is_terminal(),
{
}

/// How an update treats a key that the map already holds, or does not hold
/// yet. The kernel takes one of the three values.
#[derive(Debug, Clone, Copy, PartialEq, Eq, Structural)]
pub struct BpfUpdateElemFlags {
    bits: u32,
}

impl BpfUpdateElemFlags {
    pub closed spec fn spec_bits(self) -> u32 {
        self.bits
    }

    /// The value that the kernel takes.
    #[verifier::when_used_as_spec(spec_bits)]
    pub fn bits(self) -> (bits: u32)
        ensures
            bits == self.spec_bits(),
    {
        self.bits
    }

    /// The flags with the bits `bits`, where every bit of `bits` is a bit of
    /// one of the three values.
    pub fn from_bits(bits: u32) -> (r: Option<BpfUpdateElemFlags>)
        ensures
            r is Some <==> bits <= 3,
            r matches Some(flags) ==> flags.spec_bits() == bits,
    {
        if bits <= 3 {
            Some(BpfUpdateElemFlags { bits })
        } else {
            None
        }
    }

    /// Create the entry or replace it.
    #[allow(non_snake_case)]
    pub fn ANY() -> (flags: BpfUpdateElemFlags)
        ensures
            flags.spec_bits() == 0,
    {
        BpfUpdateElemFlags { bits: 0 }
    }

    /// Create the entry; fail where the key is there already.
    #[allow(non_snake_case)]
    pub fn NOEXIST() -> (flags: BpfUpdateElemFlags)
        ensures
            flags.spec_bits() == 1,
    {
        BpfUpdateElemFlags { bits: 1 }
    }

    /// Replace the entry; fail where the key is not there.
    #[allow(non_snake_case)]
    pub fn EXIST() -> (flags: BpfUpdateElemFlags)
        ensures
            flags.spec_bits() == 2,
    {
        BpfUpdateElemFlags { bits: 2 }
    }
}

/// How an XDP program is attached to a network interface: a set of flags,
/// held as the bits that the kernel takes.
#[derive(Debug, Clone, Copy, PartialEq, Eq, Structural)]
pub struct XdpFlags {
    bits: u32,
}

impl XdpFlags {
    pub closed spec fn spec_bits(self) -> u32 {
        self.bits
    }

    /// The bits that the kernel takes.
    #[verifier::when_used_as_spec(spec_bits)]
    pub fn bits(self) -> (bits: u32)
        ensures
            bits == self.spec_bits(),
    {
        self.bits
    }

    /// The set with the bits `bits`, where every bit of `bits` is the bit of
    /// a flag.
    pub fn from_bits(bits: u32) -> (r: Option<XdpFlags>)
        ensures
            r is Some <==> bits <= 15,
            r matches Some(flags) ==> flags.spec_bits() == bits,
    {
        if bits <= 15 {
            Some(XdpFlags { bits })
        } else {
            None
        }
    }

    /// The set without any flag.
    pub fn empty() -> (flags: XdpFlags)
        ensures
            flags.spec_bits() == 0,
    {
        XdpFlags { bits: 0 }
    }

    /// Attach only where no program is attached yet.
    #[allow(non_snake_case)]
    pub fn UPDATE_IF_NOEXIST() -> (flags: XdpFlags)
        ensures
            flags.spec_bits() == 1,
    {
        XdpFlags { bits: 1 }
    }

    /// Run the program in the kernel's generic path.
    #[allow(non_snake_case)]
    pub fn SKB_MODE() -> (flags: XdpFlags)
        ensures
            flags.spec_bits() == 2,
    {
        XdpFlags { bits: 2 }
    }

    /// Run the program in the driver.
    #[allow(non_snake_case)]
    pub fn DRV_MODE() -> (flags: XdpFlags)
        ensures
            flags.spec_bits() == 4,
    {
        XdpFlags { bits: 4 }
    }

    /// Run the program on the network card.
    #[allow(non_snake_case)]
    pub fn HW_MODE() -> (flags: XdpFlags)
        ensures
            flags.spec_bits() == 8,
    {
        XdpFlags { bits: 8 }
    }

    /// The three modes together.
    #[allow(non_snake_case)]
    pub fn MODES() -> (flags: XdpFlags)
        ensures
            flags.spec_bits() == 14,
    {
        XdpFlags { bits: 14 }
    }

    /// Every flag.
    #[allow(non_snake_case)]
    pub fn MASK() -> (flags: XdpFlags)
        ensures
            flags.spec_bits() == 15,
    {
        XdpFlags { bits: 15 }
    }

    /// The flags of `self` and those of `other`.
    pub fn union(self, other: XdpFlags) -> (flags: XdpFlags)
        ensures
            flags.spec_bits() == self.spec_bits() | other.spec_bits(),
    {
        XdpFlags { bits: self.bits | other.bits }
    }

    /// Whether every flag of `other` is in `self`.
    pub fn contains(self, other: XdpFlags) -> (b: bool)
        ensures
            b == (self.spec_bits() & other.spec_bits() == other.spec_bits()),
    {
        self.bits & other.bits == other.bits
    }
}

/// `MODES` is the three modes and nothing else, and `MASK` is `MODES` and
/// `UPDATE_IF_NOEXIST`.
pub proof fn lemma_xdp_flags_sets()
    ensures
        14u32 == 2u32 | 4u32 | 8u32,
        15u32 == 1u32 | 14u32,
{
    assert(14u32 == 2u32 | 4u32 | 8u32) by (bit_vector);
    assert(15u32 == 1u32 | 14u32) by (bit_vector);
}

/// A BPF object file that the kernel has loaded, known by the handle that the
/// loader gave for it.
#[derive(Debug, PartialEq, Eq)]
pub struct BpfObject {
    pobj: usize,
}

impl BpfObject {
    pub closed spec fn spec_as_raw(&self) -> usize {
        self.pobj
    }

    pub fn from_raw(pobj: usize) -> (object: BpfObject)
        ensures
            object.spec_as_raw() == pobj,
    {
        BpfObject { pobj }
    }

    /// The loader's handle.
    #[verifier::when_used_as_spec(spec_as_raw)]
    pub fn as_raw(&self) -> (pobj: usize)
        ensures
            pobj == self.spec_as_raw(),
    {
        self.pobj
    }
}

/// A program inside a loaded object, known by the loader's handle.
#[derive(Debug, PartialEq, Eq)]
pub struct BpfProgram {
    pprogram: usize,
}

impl BpfProgram {
    pub closed spec fn spec_as_raw(&self) -> usize {
        self.pprogram
    }

    /// The loader's handle.
    #[verifier::when_used_as_spec(spec_as_raw)]
    pub fn as_raw(&self) -> (pprogram: usize)
        ensures
            pprogram == self.spec_as_raw(),
    {
        self.pprogram
    }
}

/// A map inside a loaded object, known by the loader's handle.
#[derive(Debug, PartialEq, Eq)]
pub struct BpfMap {
    pmap: usize,
}

impl BpfMap {
    pub closed spec fn spec_as_raw(&self) -> usize {
        self.pmap
    }

    /// The loader's handle.
    #[verifier::when_used_as_spec(spec_as_raw)]
    pub fn as_raw(&self) -> (pmap: usize)
        ensures
            pmap == self.spec_as_raw(),
    {
        self.pmap
    }
}

/// Walks the programs of a loaded object. The kernel's loader knows which
/// program follows which; the iterator holds the program that comes out next.
pub struct BpfObjectIterator<'a> {
    src: &'a BpfObject,
    next: Option<BpfProgram>,
}

impl<'a> BpfObjectIterator<'a> {
    /// The object whose programs are walked.
    pub closed spec fn source(&self) -> &'a BpfObject {
        self.src
    }

    /// The program that comes out next; `None` once the walk is over.
    pub closed spec fn pending(&self) -> Option<BpfProgram> {
        self.next
    }

    /// Starts a walk at `first`, the object's first program as the loader
    /// gave it (`None` for an object without programs).
    pub fn new(src: &'a BpfObject, first: Option<BpfProgram>) -> (iter: BpfObjectIterator<'a>)
        ensures
            iter.source() == src,
            iter.pending() == first,
    {
        BpfObjectIterator { src, next: first }
    }

    /// The program that comes out next. The caller asks the loader for the
    /// program after this one and hands the answer to [`Self::next`].
    pub fn peek(&self) -> (program: Option<&BpfProgram>)
        ensures
            program is Some <==> self.pending() is Some,
            program matches Some(p) ==> Some(*p) == self.pending(),
    {
        self.next.as_ref()
    }

    /// Hands out the pending program and takes `following`, the program that
    /// the loader names after it, as the new pending one. Once the walk is
    /// over nothing comes out and nothing is taken in.
    pub fn next(&mut self, following: Option<BpfProgram>) -> (program: Option<BpfProgram>)
        ensures
            program == old(self).pending(),
            final(self).source() == old(self).source(),
            old(self).pending() is Some ==> final(self).pending() == following,
            old(self).pending() is None ==> final(self).pending() is None,
    {
        match &self.next {
            Some(_) => {
                let mut next = following;
                core::mem::swap(&mut next, &mut self.next);
                next
            },
            None => None,
        }
    }
}

impl BpfObject {
    /// Starts a walk over the programs of the object; see
    /// [`BpfObjectIterator::new`].
    pub fn into_iter<'a>(&'a self, first: Option<BpfProgram>) -> (iter: BpfObjectIterator<'a>)
        ensures
            iter.source() == self,
            iter.pending() == first,
    {
        BpfObjectIterator::new(self, first)
    }
}

/// Something that holds a file descriptor of the kernel's BPF interface.
pub trait BpfFd {
    /// What the kernel tells about the object behind the descriptor.
    type BpfInfoType;

    spec fn spec_fd(&self) -> i32;

    fn fd(&self) -> (fd: i32)
        ensures
            fd == self.spec_fd(),
    ;
}

/// A description of a BPF object, made from the record that the kernel fills.
pub trait BpfInfo: Sized {
    /// The record as the kernel fills it.
    type BpfRawInfoType;

    spec fn spec_new(raw_info: Self::BpfRawInfoType) -> Self;

    fn new(raw_info: Self::BpfRawInfoType) -> (info: Self)
        ensures
            info == Self::spec_new(raw_info),
    ;
}

/// A file descriptor of a BPF object whose description is a `T`.
#[verifier::reject_recursive_types(T)]
#[verifier::reject_recursive_types(U)]
pub struct BpfFdImpl<T, U> where T: BpfInfo<BpfRawInfoType = U> {
    fd: i32,
    _info_type: PhantomData<T>,
}

impl<T, U> BpfFd for BpfFdImpl<T, U> where T: BpfInfo<BpfRawInfoType = U> {
    type BpfInfoType = T;

    closed spec fn spec_fd(&self) -> i32 {
        self.fd
    }

    fn fd(&self) -> (fd: i32) {
        self.fd
    }
}

/// The file descriptor of a loaded program.
pub type BpfProgFd = BpfFdImpl<BpfProgInfo, RawProgInfo>;

/// The file descriptor of a map, before the types of its keys and values are
/// attached.
pub type UnsafeBpfMapFd = BpfFdImpl<BpfMapInfo, RawMapInfo>;

/// What the kernel tells about a program: the fields that this crate reads.
#[derive(Debug, Clone, Copy, PartialEq, Eq)]
pub struct RawProgInfo {
    pub id: u32,
    /// The program's name as a C string.
    pub name: [u8; 16],
}

/// What the kernel tells about a map: the fields that this crate reads.
#[derive(Debug, Clone, Copy, PartialEq, Eq)]
pub struct RawMapInfo {
    pub type_: u32,
    pub id: u32,
    pub key_size: u32,
    pub value_size: u32,
    pub max_entries: u32,
    pub map_flags: u32,
    /// The map's name as a C string.
    pub name: [u8; 16],
}

/// The definition of a map as a BPF program declares it.
#[derive(Debug, Clone, Copy, PartialEq, Eq)]
pub struct RawMapDef {
    pub type_: u32,
    pub key_size: u32,
    pub value_size: u32,
    pub max_entries: u32,
    pub map_flags: u32,
}

/// What the kernel hands an XDP program about the packet at hand.
#[derive(Debug, Clone, Copy, PartialEq, Eq)]
pub struct RawXdpMd {
    pub data: u32,
    pub data_end: u32,
    pub data_meta: u32,
    pub ingress_ifindex: u32,
    pub rx_queue_index: u32,
}

/// The description of a loaded program.
pub struct BpfProgInfo {
    info: RawProgInfo,
}

impl BpfInfo for BpfProgInfo {
    type BpfRawInfoType = RawProgInfo;

    closed spec fn spec_new(raw_info: RawProgInfo) -> BpfProgInfo {
        BpfProgInfo { info: raw_info }
    }

    fn new(raw_info: RawProgInfo) -> (info: BpfProgInfo) {
        BpfProgInfo { info: raw_info }
    }
}

impl BpfProgInfo {
    /// The record that the description was made from.
    pub closed spec fn raw(&self) -> RawProgInfo {
        self.info
    }

    /// A description holds the record that it was made from.
    pub proof fn lemma_new_keeps_raw(raw_info: RawProgInfo)
        ensures
            <BpfProgInfo as BpfInfo>::spec_new(raw_info).raw() == raw_info,
    {
    }

    pub fn id(&self) -> (id: u32)
        ensures
            id == self.raw().id,
    {
        self.info.id
    }

    /// The program's name: the C string in the record's `name`, read as
    /// UTF-8.
    pub fn name(&self) -> (r: Result<String, Error>)
        ensures
            r is Ok <==> valid_utf8(c_str_bytes(self.raw().name@)),
            r matches Ok(name) ==> name@ == decode_utf8(c_str_bytes(self.raw().name@)),
            r matches Err(e) ==> e@ matches ErrorView::Generic(
                crate::error::GenericErrorView::CCharConversion(_),
            ),
    {
        c_char_pointer_to_string(self.info.name.as_slice())
    }
}

/// The size of a `T` in bytes as a map definition holds it: in 32 bits.
pub open spec fn size_as_u32<T>() -> u32 {
    vstd::layout::size_of::<T>() as u32
}

/// The definition of a map with keys of type `T` and values of type `U`.
pub struct BpfMapDef<T, U> {
    pub(crate) map_def: RawMapDef,
    _key_ty: PhantomData<T>,
    _value_ty: PhantomData<U>,
}

impl<T, U> BpfMapDef<T, U> {
    /// The definition as the kernel reads it.
    pub closed spec fn raw(&self) -> RawMapDef {
        self.map_def
    }

    /// The definition of a map of the kind `type_` with room for
    /// `max_entries` entries. The sizes of keys and values are those of `T`
    /// and `U`; no flag is set.
    pub fn new(type_: BpfMapType, max_entries: u32) -> (def: BpfMapDef<T, U>)
        ensures
            def.raw() == (RawMapDef {
                type_: type_.spec_as_u32(),
                key_size: size_as_u32::<T>(),
                value_size: size_as_u32::<U>(),
                max_entries,
                map_flags: 0,
            }),
    {
        BpfMapDef {
            map_def: RawMapDef {
                type_: type_.as_u32(),
                key_size: core::mem::size_of::<T>() as u32,
                value_size: core::mem::size_of::<U>() as u32,
                max_entries,
                map_flags: 0,
            },
            _key_ty: PhantomData,
            _value_ty: PhantomData,
        }
    }

    /// The definition in the form of the kernel's description of a map: the
    /// kernel has given it no id and no name yet.
    pub fn to_bpf_map_info(&self) -> (info: BpfMapInfo)
        ensures
            info.raw().type_ == self.raw().type_,
            info.raw().id == 0,
            info.raw().key_size == self.raw().key_size,
            info.raw().value_size == self.raw().value_size,
            info.raw().max_entries == self.raw().max_entries,
            info.raw().map_flags == self.raw().map_flags,
            forall|i: int| 0 <= i < 16 ==> info.raw().name[i] == 0,
    {
        BpfMapInfo {
            info: RawMapInfo {
                type_: self.map_def.type_,
                id: 0,
                key_size: self.map_def.key_size,
                value_size: self.map_def.value_size,
                max_entries: self.map_def.max_entries,
                map_flags: self.map_def.map_flags,
                name: [0u8; 16],
            },
        }
    }
}

/// The description of a map.
pub struct BpfMapInfo {
    info: RawMapInfo,
}

impl BpfInfo for BpfMapInfo {
    type BpfRawInfoType = RawMapInfo;

    closed spec fn spec_new(raw_info: RawMapInfo) -> BpfMapInfo {
        BpfMapInfo { info: raw_info }
    }

    fn new(raw_info: RawMapInfo) -> (info: BpfMapInfo) {
        BpfMapInfo { info: raw_info }
    }
}

impl BpfMapInfo {
    /// The record that the description was made from.
    pub closed spec fn raw(&self) -> RawMapInfo {
        self.info
    }

    /// A description holds the record that it was made from.
    pub proof fn lemma_new_keeps_raw(raw_info: RawMapInfo)
        ensures
            <BpfMapInfo as BpfInfo>::spec_new(raw_info).raw() == raw_info,
    {
    }

    pub fn id(&self) -> (id: u32)
        ensures
            id == self.raw().id,
    {
        self.info.id
    }

    pub fn value_size(&self) -> (size: u32)
        ensures
            size == self.raw().value_size,
    {
        self.info.value_size
    }

    pub fn key_size(&self) -> (size: u32)
        ensures
            size == self.raw().key_size,
    {
        self.info.key_size
    }

    pub fn max_entries(&self) -> (entries: u32)
        ensures
            entries == self.raw().max_entries,
    {
        self.info.max_entries
    }

    /// The kind of the map, where this crate knows the kind that the kernel
    /// reports.
    pub fn try_type(&self) -> (r: Option<BpfMapType>)
        ensures
            r is Some <==> BpfMapType::is_known(self.raw().type_),
            r matches Some(map_type) ==> map_type.spec_as_u32() == self.raw().type_,
    {
        BpfMapType::from_u32(self.info.type_)
    }

    /// The kind of the map. The kernel may report a kind that this crate does
    /// not know; [`Self::try_type`] tells.
    pub fn type_(&self) -> (map_type: BpfMapType)
        requires
            BpfMapType::is_known(self.raw().type_),
        ensures
            map_type.spec_as_u32() == self.raw().type_,
    {
        match BpfMapType::from_u32(self.info.type_) {
            Some(map_type) => map_type,
            None => BpfMapType::UNSPEC,
        }
    }

    /// The map's name: the C string in the record's `name`, read as UTF-8.
    pub fn name(&self) -> (r: Result<String, Error>)
        ensures
            r is Ok <==> valid_utf8(c_str_bytes(self.raw().name@)),
            r matches Ok(name) ==> name@ == decode_utf8(c_str_bytes(self.raw().name@)),
            r matches Err(e) ==> e@ matches ErrorView::Generic(
                crate::error::GenericErrorView::CCharConversion(_),
            ),
    {
        c_char_pointer_to_string(self.info.name.as_slice())
    }

    /// Whether the map is of the kind that `def` declares and has keys and
    /// values of the sizes that `def` declares. The number of entries, the
    /// flags, the id and the name play no part.
    pub open spec fn spec_matches_map_def<T, U>(&self, def: &BpfMapDef<T, U>) -> bool {
        &&& self.raw().type_ == def.raw().type_
        &&& self.raw().key_size == def.raw().key_size
        &&& self.raw().value_size == def.raw().value_size
    }

    #[verifier::when_used_as_spec(spec_matches_map_def)]
    pub fn matches_map_def<T, U>(&self, def: &BpfMapDef<T, U>) -> (b: bool)
        ensures
            b == self.spec_matches_map_def(def),
    {
        self.info.type_ == def.map_def.type_ && self.info.key_size == def.map_def.key_size
            && self.info.value_size == def.map_def.value_size
    }
}

/// The file descriptor of a map with keys of type `T` and values of type `U`.
pub struct BpfMapFd<T, U> {
    map_fd: UnsafeBpfMapFd,
    _key_ty: PhantomData<T>,
    _value_ty: PhantomData<U>,
}

impl<T, U> BpfFd for BpfMapFd<T, U> {
    type BpfInfoType = BpfMapInfo;

    closed spec fn spec_fd(&self) -> i32 {
        self.map_fd.spec_fd()
    }

    fn fd(&self) -> (fd: i32) {
        self.map_fd.fd()
    }
}

/// The packet that an XDP program is called for, as the kernel describes it.
pub struct XdpMd(RawXdpMd);

impl XdpMd {
    /// The kernel's record.
    pub closed spec fn raw(&self) -> RawXdpMd {
        self.0
    }

    pub fn new(raw: RawXdpMd) -> (md: XdpMd)
        ensures
            md.raw() == raw,
    {
        XdpMd(raw)
    }

    /// Where the packet's bytes start.
    pub fn data(&self) -> (data: u32)
        ensures
            data == self.raw().data,
    {
        self.0.data
    }

    /// Where the packet's bytes end.
    pub fn data_end(&self) -> (data_end: u32)
        ensures
            data_end == self.raw().data_end,
    {
        self.0.data_end
    }

    /// The number of bytes of the packet. The kernel puts the end of a
    /// packet at or after its start.
    pub fn data_len(&self) -> (len: usize)
        requires
            self.raw().data <= self.raw().data_end,
        ensures
            len == self.raw().data_end - self.raw().data,
    {
        (self.0.data_end - self.0.data) as usize
    }

    pub fn data_meta(&self) -> (data_meta: u32)
        ensures
            data_meta == self.raw().data_meta,
    {
        self.0.data_meta
    }

    pub fn ingress_ifindex(&self) -> (ifindex: u32)
        ensures
            ifindex == self.raw().ingress_ifindex,
    {
        self.0.ingress_ifindex
    }

    pub fn rx_queue_index(&self) -> (index: u32)
        ensures
            index == self.raw().rx_queue_index,
    {
        self.0.rx_queue_index
    }
}

/// The kernel's error number for "no such entry". A call that fails returns
/// the error number negated.
pub const ENOENT: i32 = 2;

/// The description of the object behind `bpf_fd`, given what the kernel
/// answered when asked for it: the status `err` of the call and the record
/// `info` that the call filled. Any status but 0 is a failure.
pub fn bpf_obj_get_info_by_fd<T: BpfFd>(
    bpf_fd: &T,
    err: i32,
    info: <<T as BpfFd>::BpfInfoType as BpfInfo>::BpfRawInfoType,
) -> (r: Result<T::BpfInfoType, Error>) where T::BpfInfoType: BpfInfo
    ensures
        err == 0 ==> r == Ok::<T::BpfInfoType, Error>(
            <<T as BpfFd>::BpfInfoType as BpfInfo>::spec_new(info),
        ),
        err != 0 ==> (r matches Err(e) && e@ == libbpf_sys_error(
            "bpf_obj_get_info_by_fd"@,
            err,
        )),
{
    if err != 0 {
        return map_libbpf_error("bpf_obj_get_info_by_fd", LibbpfError::LibbpfSys(err));
    }
    Ok(<<T as BpfFd>::BpfInfoType as BpfInfo>::new(info))
}

/// The status of a call as this crate takes it, given the number `ret` that
/// the call returned and the error number `errno` that it left behind, if
/// any. A call that fails returns the error number negated, or it returns -1
/// and leaves the error number behind; the status is the error number
/// negated either way. Every other return is the status as it is.
pub open spec fn spec_status(ret: i32, errno: Option<i32>) -> i32 {
    match errno {
        Some(number) => if ret == -1 && number > 0 {
            (-number) as i32
        } else {
            ret
        },
        None => ret,
    }
}

#[verifier::when_used_as_spec(spec_status)]
pub fn status(ret: i32, errno: Option<i32>) -> (status: i32)
    ensures
        status == spec_status(ret, errno),
        ret >= 0 ==> status == ret,
{
    match errno {
        Some(number) => if ret == -1 && number > 0 {
            -number
        } else {
            ret
        },
        None => ret,
    }
}

/// The loaded object and its first program, given the text of the path of
/// the object file (`None` for a path that is not Unicode) and what the
/// loader answered: the status `err` of the call, the handle `pobj` of the
/// object and the file descriptor `prog_fd` of the program. A path that
/// cannot be handed to the loader is an error, and the loader is never asked:
/// its answer plays no part then. For every other path any status but 0 is a
/// failure, and so is a negative file descriptor.
pub fn bpf_prog_load(file_path: Option<&str>, err: i32, pobj: usize, prog_fd: i32) -> (r: Result<
    (BpfObject, BpfProgFd),
    Error,
>)
    ensures
        path_error(file_path) matches Some(cause) ==> (r matches Err(e) && e@ == cause),
        path_error(file_path) is None && err != 0 ==> (r matches Err(e) && e@
            == libbpf_sys_error("bpf_prog_load"@, err)),
        path_error(file_path) is None && err == 0 && prog_fd < 0 ==> (r matches Err(e) && e@
            == ErrorView::Libbpf("bpf_prog_load"@, LibbpfError::InvalidFd)),
        path_error(file_path) is None && err == 0 && prog_fd >= 0 ==> (r matches Ok(loaded)
            && loaded.0.spec_as_raw() == pobj && loaded.1.spec_fd() == prog_fd),
{
    match path_to_cstring(file_path) {
        Err(e) => {
            return Err(e);
        },
        Ok(_) => {},
    }
    if err != 0 {
        return map_libbpf_error("bpf_prog_load", LibbpfError::LibbpfSys(err));
    }
    if prog_fd < 0 {
        return map_libbpf_error("bpf_prog_load", LibbpfError::InvalidFd);
    }
    Ok((BpfObject { pobj }, BpfProgFd { fd: prog_fd, _info_type: PhantomData }))
}

/// What a lookup in a map came to, given the status `err` that the kernel
/// returned: `Some` where the kernel found the key and wrote its value,
/// `None` where the kernel reports that the map has no entry for the key, and
/// an error for every other status.
pub fn bpf_map_lookup_elem(err: i32) -> (r: Result<Option<()>, Error>)
    ensures
        err == 0 ==> r == Ok::<Option<()>, Error>(Some(())),
        err == -ENOENT ==> r == Ok::<Option<()>, Error>(None),
        err != 0 && err != -ENOENT ==> (r matches Err(e) && e@ == libbpf_sys_error(
            "bpf_map_lookup_elem"@,
            err,
        )),
{
    if err == 0 {
        Ok(Some(()))
    } else if err == -ENOENT {
        Ok(None)
    } else {
        map_libbpf_error("bpf_map_lookup_elem", LibbpfError::LibbpfSys(err))
    }
}

/// What an update of a map came to, given the status `err` that the kernel
/// returned. Any status but 0 is a failure: the flags forbid the write, the
/// map is full, or the kernel refused for another reason.
pub fn bpf_map_update_elem(err: i32) -> (r: Result<(), Error>)
    ensures
        err == 0 ==> r == Ok::<(), Error>(()),
        err != 0 ==> (r matches Err(e) && e@ == libbpf_sys_error("bpf_map_update_elem"@, err)),
{
    if err != 0 {
        return map_libbpf_error("bpf_map_update_elem", LibbpfError::LibbpfSys(err));
    }
    Ok(())
}

/// The program with the title `title`, given the handle `bpf_program` that
/// the loader answered: 0 where the object has no such program. A title that
/// holds a NUL byte is an error, and the loader is never asked: its answer
/// plays no part then.
#[allow(non_snake_case)]
pub fn bpf_object__find_program_by_title(title: &str, bpf_program: usize) -> (r: Result<
    Option<BpfProgram>,
    Error,
>)
    ensures
        c_string_error(title) matches Some(cause) ==> (r matches Err(e) && e@ == cause),
        c_string_error(title) is None && bpf_program == 0 ==> r matches Ok(None),
        c_string_error(title) is None && bpf_program != 0 ==> (r matches Ok(Some(program))
            && program.spec_as_raw() == bpf_program),
{
    match str_to_cstring(title) {
        Err(e) => {
            return Err(e);
        },
        Ok(_) => {},
    }
    if bpf_program == 0 {
        return Ok(None);
    }
    Ok(Some(BpfProgram { pprogram: bpf_program }))
}

/// The map with the name `name`, given the handle `bpf_map` that the loader
/// answered: 0 where the object has no such map. A name that holds a NUL
/// byte is an error, and the loader is never asked: its answer plays no part
/// then.
#[allow(non_snake_case)]
pub fn bpf_object__find_map_by_name(name: &str, bpf_map: usize) -> (r: Result<
    Option<BpfMap>,
    Error,
>)
    ensures
        c_string_error(name) matches Some(cause) ==> (r matches Err(e) && e@ == cause),
        c_string_error(name) is None && bpf_map == 0 ==> r matches Ok(None),
        c_string_error(name) is None && bpf_map != 0 ==> (r matches Ok(Some(map))
            && map.spec_as_raw() == bpf_map),
{
    match str_to_cstring(name) {
        Err(e) => {
            return Err(e);
        },
        Ok(_) => {},
    }
    if bpf_map == 0 {
        return Ok(None);
    }
    Ok(Some(BpfMap { pmap: bpf_map }))
}

/// The program after the one that was asked about, given the handle
/// `pprogram` that the loader answered: 0 after the last program.
#[allow(non_snake_case)]
pub fn bpf_program__next(pprogram: usize) -> (r: Option<BpfProgram>)
    ensures
        pprogram == 0 ==> r is None,
        pprogram != 0 ==> (r matches Some(program) && program.spec_as_raw() == pprogram),
{
    if pprogram == 0 {
        return None;
    }
    Some(BpfProgram { pprogram })
}

/// The file descriptor of a program, given the descriptor `prog_fd` that the
/// loader answered. A negative descriptor is a failure.
#[allow(non_snake_case)]
pub fn bpf_program__fd(prog_fd: i32) -> (r: Result<BpfProgFd, Error>)
    ensures
        prog_fd >= 0 ==> (r matches Ok(fd) && fd.spec_fd() == prog_fd),
        prog_fd < 0 ==> (r matches Err(e) && e@ == ErrorView::Libbpf(
            "bpf_program__fd"@,
            LibbpfError::InvalidFd,
        )),
{
    if prog_fd < 0 {
        return map_libbpf_error("bpf_program__fd", LibbpfError::InvalidFd);
    }
    Ok(BpfProgFd { fd: prog_fd, _info_type: PhantomData })
}

/// The section title of a program, given the C string `title` that the loader
/// answered: `None` where it answered with no string at all.
#[allow(non_snake_case)]
pub fn bpf_program__title(title: Option<&[u8]>) -> (r: Result<String, Error>)
    ensures
        title is None ==> (r matches Err(e) && e@ == ErrorView::Libbpf(
            "bpf_program__title"@,
            LibbpfError::InvalidTitle,
        )),
        title matches Some(c_chars) ==> {
            &&& r is Ok <==> valid_utf8(c_str_bytes(c_chars@))
            &&& r matches Ok(text) ==> text@ == decode_utf8(c_str_bytes(c_chars@))
            &&& r matches Err(e) ==> e@ matches ErrorView::Generic(
                crate::error::GenericErrorView::CCharConversion(_),
            )
        },
{
    match title {
        None => map_libbpf_error("bpf_program__title", LibbpfError::InvalidTitle),
        Some(c_chars) => c_char_pointer_to_string(c_chars),
    }
}

/// The file descriptor of a map with keys of type `T` and values of type `U`,
/// given the descriptor `fd` that the loader answered. A negative descriptor
/// is a failure.
#[allow(non_snake_case)]
pub fn bpf_map__fd<T, U>(fd: i32) -> (r: Result<BpfMapFd<T, U>, Error>)
    ensures
        fd >= 0 ==> (r matches Ok(map_fd) && map_fd.spec_fd() == fd),
        fd < 0 ==> (r matches Err(e) && e@ == ErrorView::Libbpf(
            "bpf_map__fd"@,
            LibbpfError::InvalidFd,
        )),
{
    if fd < 0 {
        return map_libbpf_error("bpf_map__fd", LibbpfError::InvalidFd);
    }
    Ok(
        BpfMapFd {
            map_fd: UnsafeBpfMapFd { fd, _info_type: PhantomData },
            _key_ty: PhantomData,
            _value_ty: PhantomData,
        },
    )
}

/// What the kernel is handed to attach a program to an interface, or to take
/// off whatever is attached: the interface's index as a signed number, the
/// program's file descriptor (-1 to take off), and the flags' bits.
pub fn xdp_link_arguments(
    interface: &Interface,
    bpf_fd: Option<&BpfProgFd>,
    xdp_flags: XdpFlags,
) -> (args: (i32, i32, u32))
    ensures
        args.0 == interface.spec_ifindex() as i32,
        bpf_fd matches Some(prog_fd) ==> args.1 == prog_fd.spec_fd(),
        bpf_fd is None ==> args.1 == -1,
        args.2 == xdp_flags.spec_bits(),
{
    let fd: i32 = match bpf_fd {
        Some(prog_fd) => prog_fd.fd(),
        None => -1,
    };
    (interface.ifindex() as i32, fd, xdp_flags.bits())
}

/// What attaching a program to an interface, or taking it off, came to, given
/// the status `err` that the kernel returned. A negative status is a failure.
pub fn bpf_set_link_xdp_fd(err: i32) -> (r: Result<(), Error>)
    ensures
        err >= 0 ==> r == Ok::<(), Error>(()),
        err < 0 ==> (r matches Err(e) && e@ == libbpf_sys_error("bpf_set_link_xdp_fd"@, err)),
{
    if err < 0 {
        return map_libbpf_error("bpf_set_link_xdp_fd", LibbpfError::LibbpfSys(err));
    }
    Ok(())
}

/// The number of CPUs that the system may ever have, given the number `ret`
/// that the kernel's BPF interface answered. A negative answer is a failure.
pub fn libbpf_num_possible_cpus(ret: i32) -> (r: Result<usize, Error>)
    ensures
        ret >= 0 ==> r == Ok::<usize, Error>(ret as usize),
        ret < 0 ==> (r matches Err(e) && e@ == libbpf_sys_error(
            "libbpf_num_possible_cpus"@,
            ret,
        )),
{
    if ret < 0 {
        return map_libbpf_error("libbpf_num_possible_cpus", LibbpfError::LibbpfSys(ret));
    }
    Ok(ret as usize)
}

} // verus!
