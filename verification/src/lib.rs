//! Typed access to the Linux kernel's BPF maps.
//!
//! The crate holds the rules that sit between a program and the kernel's BPF
//! interface: how the memory of a map value is laid out (one value, or one
//! padded slot per CPU), how a map descriptor is held against the types a
//! handle was declared with, and what each answer of the kernel means for
//! the caller. The calls into the kernel themselves are made by the code that
//! uses this crate; every function here takes the kernel's answer as a plain
//! value.
pub mod bpf;
pub mod error;
pub mod helpers;
pub mod interface;
pub mod layout;
pub mod libbpf;
pub mod map_layout;
pub mod maps;
pub mod section;
pub mod userspace;
pub mod utils;
pub mod xdp;

use vstd::prelude::*;

verus! {

/// The license that a BPF program declares to the kernel: the C string
/// "GPL".
pub const LICENSE: [u8; 4] = [71u8, 80u8, 76u8, 0u8];

/// The kernel version that a BPF program declares: the value that stands for
/// any version.
pub const VERSION: u32 = 0xFFFFFFFE;

} // verus!
