//! Attaching XDP programs to network interfaces, with the flags given one by
//! one.
pub use crate::libbpf::XdpAction;
use crate::error::{libbpf_sys_error, Error};
use crate::interface::Interface;
use crate::libbpf::{BpfFd, BpfProgFd, RawXdpMd};
use vstd::prelude::*;

verus! {

/// One flag that says how an XDP program is attached to a network interface.
#[allow(non_camel_case_types)]
#[derive(Debug, Clone, Copy, PartialEq, Eq, Structural)]
pub enum XdpFlags {
    /// Attach only where no program is attached yet.
    UPDATE_IF_NOEXIST,
    /// Run the program in the kernel's generic path.
    SKB_MODE,
    /// Run the program in the driver.
    DRV_MODE,
    /// Run the program on the network card.
    HW_MODE,
    /// The three modes together.
    MODES,
    /// Every flag.
    MASK,
}

impl XdpFlags {
    /// The bits by which the kernel knows the flag.
    pub open spec fn spec_bits(self) -> u32 {
        match self {
            XdpFlags::UPDATE_IF_NOEXIST => 1,
            XdpFlags::SKB_MODE => 2,
            XdpFlags::DRV_MODE => 4,
            XdpFlags::HW_MODE => 8,
            XdpFlags::MODES => 14,
            XdpFlags::MASK => 15,
        }
    }

    #[verifier::when_used_as_spec(spec_bits)]
    pub fn bits(self) -> (bits: u32)
        ensures
            bits == self.spec_bits(),
    {
        match self {
            XdpFlags::UPDATE_IF_NOEXIST => 1,
            XdpFlags::SKB_MODE => 2,
            XdpFlags::DRV_MODE => 4,
            XdpFlags::HW_MODE => 8,
            XdpFlags::MODES => 14,
            XdpFlags::MASK => 15,
        }
    }
}

/// The bits of all of `xdp_flags` together: those of each flag, joined by
/// bitwise or; no bit for no flag.
pub open spec fn spec_flags_bits(xdp_flags: Seq<XdpFlags>) -> u32
    decreases xdp_flags.len(),
{
    if xdp_flags.len() == 0 {
        0
    } else {
        spec_flags_bits(xdp_flags.drop_last()) | xdp_flags.last().spec_bits()
    }
}

/// The bits of all of `xdp_flags` together, as the kernel takes them.
pub fn flags_bits(xdp_flags: &[XdpFlags]) -> (bits: u32)
    ensures
        bits == spec_flags_bits(xdp_flags@),
{
    let mut bits: u32 = 0;
    let mut i: usize = 0;
    while i < xdp_flags.len()
        invariant
            i <= xdp_flags@.len(),
            bits == spec_flags_bits(xdp_flags@.take(i as int)),
        decreases xdp_flags@.len() - i,
    {
        assert(xdp_flags@.take(i + 1).drop_last() == xdp_flags@.take(i as int));
        bits = bits | xdp_flags[i].bits();
        i += 1;
    }
    assert(xdp_flags@.take(i as int) == xdp_flags@);
    bits
}

/// The bits of a list of flags hold the bits of every flag in the list.
pub proof fn lemma_flags_bits_hold_each(xdp_flags: Seq<XdpFlags>, i: int)
    requires
        0 <= i < xdp_flags.len(),
    ensures
        spec_flags_bits(xdp_flags) & xdp_flags[i].spec_bits() == xdp_flags[i].spec_bits(),
    decreases xdp_flags.len(),
{
    let rest = spec_flags_bits(xdp_flags.drop_last());
    let last = xdp_flags.last().spec_bits();
    let bits = xdp_flags[i].spec_bits();
    if i == xdp_flags.len() - 1 {
        assert((rest | last) & last == last) by (bit_vector);
    } else {
        lemma_flags_bits_hold_each(xdp_flags.drop_last(), i);
        assert(xdp_flags.drop_last()[i] == xdp_flags[i]);
        assert((rest | last) & bits == bits) by (bit_vector)
            requires
                rest & bits == bits,
        ;
    }
}

/// The packet that an XDP program is called for, as the kernel describes it.
pub struct XdpMetadata(RawXdpMd);

impl XdpMetadata {
    /// The kernel's record.
    pub closed spec fn raw(&self) -> RawXdpMd {
        self.0
    }

    pub fn new(raw: RawXdpMd) -> (md: XdpMetadata)
        ensures
            md.raw() == raw,
    {
        XdpMetadata(raw)
    }

    /// The kernel's record.
    pub fn into_raw(self) -> (raw: RawXdpMd)
        ensures
            raw == self.raw(),
    {
        self.0
    }
}

/// What the kernel is handed to attach a program to an interface, or to take
/// off whatever is attached: the interface's index as a signed number, the
/// program's file descriptor (-1 to take off), and the bits of the flags.
pub fn xdp_link_arguments(
    interface: &Interface,
    bpf_fd: Option<&BpfProgFd>,
    xdp_flags: &[XdpFlags],
) -> (args: (i32, i32, u32))
    ensures
        args.0 == interface.spec_ifindex() as i32,
        bpf_fd matches Some(prog_fd) ==> args.1 == prog_fd.spec_fd(),
        bpf_fd is None ==> args.1 == -1,
        args.2 == spec_flags_bits(xdp_flags@),
{
    let fd: i32 = match bpf_fd {
        Some(prog_fd) => prog_fd.fd(),
        None => -1,
    };
    (interface.ifindex() as i32, fd, flags_bits(xdp_flags))
}

/// What attaching a program to an interface, or taking it off, came to, given
/// the status `err` that the kernel returned. A negative status is a failure.
pub fn bpf_set_link_xdp_fd(err: i32) -> (r: Result<(), Error>)
    ensures
        err >= 0 ==> r == Ok::<(), Error>(()),
        err < 0 ==> (r matches Err(e) && e@ == libbpf_sys_error("bpf_set_link_xdp_fd"@, err)),
{
    crate::libbpf::bpf_set_link_xdp_fd(err)
}

} // verus!
