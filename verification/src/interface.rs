//! Network interfaces, as the kernel numbers them.
use crate::error::{Error, ErrorView, GenericError, GenericErrorView};
use crate::utils::{c_str_len, str_to_cstring};
use vstd::prelude::*;
use vstd::string::StringSliceAdditionalSpecFns;

verus! {

/// A network interface that the kernel knows.
#[derive(Debug, PartialEq, Eq)]
pub struct Interface {
    pub(crate) ifindex: u32,
}

impl Interface {
    /// The number by which the kernel knows the interface.
    pub closed spec fn spec_ifindex(&self) -> u32 {
        self.ifindex
    }

    #[verifier::when_used_as_spec(spec_ifindex)]
    pub fn ifindex(&self) -> (index: u32)
        ensures
            index == self.spec_ifindex(),
    {
        self.ifindex
    }
}

/// The index of the interface named `dev`, given what the system answered
/// when asked for it. The system takes the name as a C string, so a name that
/// holds a NUL byte is an error and the system is never asked; `ifindex`
/// plays no part then. For every other name `ifindex` is the system's answer,
/// and the system answers 0 for a name that it does not know.
pub fn if_nametoindex(dev: &str, ifindex: u32) -> (r: Result<u32, Error>)
    ensures
        dev.spec_bytes().contains(0u8) ==> (r matches Err(e) && e@ == ErrorView::Generic(
            GenericErrorView::CStringConversion(c_str_len(dev.spec_bytes()) as usize),
        )),
        !dev.spec_bytes().contains(0u8) && ifindex != 0 ==> r == Ok::<u32, Error>(ifindex),
        !dev.spec_bytes().contains(0u8) && ifindex == 0 ==> (r matches Err(e) && e@
            == ErrorView::Generic(GenericErrorView::InvalidInterfaceName(dev@))),
{
    match str_to_cstring(dev) {
        Err(e) => Err(e),
        Ok(_) => {
            if ifindex == 0 {
                Err(Error::Generic(GenericError::InvalidInterfaceName(dev.to_owned())))
            } else {
                Ok(ifindex)
            }
        },
    }
}

/// The interface named `interface_name`, given the index `ifindex` that the
/// system answered for that name (0 for a name that it does not know). A name
/// that holds a NUL byte is an error whatever `ifindex` is: the system cannot
/// be asked for it.
pub fn get_interface(interface_name: &str, ifindex: u32) -> (r: Result<Interface, Error>)
    ensures
        interface_name.spec_bytes().contains(0u8) ==> (r matches Err(e) && e@
            == ErrorView::Generic(
            GenericErrorView::CStringConversion(
                c_str_len(interface_name.spec_bytes()) as usize,
            ),
        )),
        !interface_name.spec_bytes().contains(0u8) && ifindex != 0 ==> (r matches Ok(interface)
            && interface.spec_ifindex() == ifindex),
        !interface_name.spec_bytes().contains(0u8) && ifindex == 0 ==> (r matches Err(e) && e@
            == ErrorView::Generic(GenericErrorView::InvalidInterfaceName(interface_name@))),
{
    match if_nametoindex(interface_name, ifindex) {
        Ok(ifindex) => Ok(Interface { ifindex }),
        Err(e) => Err(e),
    }
}

} // verus!
