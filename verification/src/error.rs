//! The errors that the crate reports.
use vstd::prelude::*;

verus! {

/// `core::str::Utf8Error`, a value of std that says why a byte string is not
/// UTF-8. The crate carries it from the decoder to the caller and never looks
/// inside.
#[verifier::external_type_specification]
#[verifier::external_body]
pub struct ExUtf8Error(core::str::Utf8Error);

/// A failure reported by the kernel's BPF interface.
#[derive(Debug, Clone, Copy, PartialEq, Eq)]
pub enum LibbpfError {
    /// The call returned this status.
    LibbpfSys(i32),
    /// The call handed back a negative file descriptor.
    InvalidFd,
    /// The program has no section title.
    InvalidTitle,
}

/// A failure that does not come from the kernel.
#[derive(Debug, PartialEq, Eq)]
pub enum GenericError {
    /// The string holds a NUL byte at this position, so it cannot be handed
    /// to C.
    CStringConversion(usize),
    /// The C string is not UTF-8.
    CCharConversion(core::str::Utf8Error),
    /// The path is not Unicode.
    InvalidPath,
    /// No network interface has this name.
    InvalidInterfaceName(String),
    /// An index lies outside the data it points into.
    OutOfIndex,
}

#[derive(Debug, PartialEq, Eq)]
pub enum Error {
    /// A call into the kernel's BPF interface failed; the string names the
    /// call.
    Libbpf(String, LibbpfError),
    Generic(GenericError),
    InvalidProgName,
    InvalidMapName,
    Custom(String),
}

/// What a [`GenericError`] says, with strings as sequences of characters.
pub enum GenericErrorView {
    CStringConversion(usize),
    CCharConversion(core::str::Utf8Error),
    InvalidPath,
    InvalidInterfaceName(Seq<char>),
    OutOfIndex,
}

/// What an [`Error`] says, with strings as sequences of characters.
pub enum ErrorView {
    Libbpf(Seq<char>, LibbpfError),
    Generic(GenericErrorView),
    InvalidProgName,
    InvalidMapName,
    Custom(Seq<char>),
}

impl View for GenericError {
    type V = GenericErrorView;

    open spec fn view(&self) -> GenericErrorView {
        match *self {
            GenericError::CStringConversion(position) => GenericErrorView::CStringConversion(
                position,
            ),
            GenericError::CCharConversion(cause) => GenericErrorView::CCharConversion(cause),
            GenericError::InvalidPath => GenericErrorView::InvalidPath,
            GenericError::InvalidInterfaceName(name) => GenericErrorView::InvalidInterfaceName(
                name@,
            ),
            GenericError::OutOfIndex => GenericErrorView::OutOfIndex,
        }
    }
}

impl View for Error {
    type V = ErrorView;

    open spec fn view(&self) -> ErrorView {
        match *self {
            Error::Libbpf(call, cause) => ErrorView::Libbpf(call@, cause),
            Error::Generic(cause) => ErrorView::Generic(cause@),
            Error::InvalidProgName => ErrorView::InvalidProgName,
            Error::InvalidMapName => ErrorView::InvalidMapName,
            Error::Custom(message) => ErrorView::Custom(message@),
        }
    }
}

/// The error of a kernel call named `call` that returned the status `status`.
pub open spec fn libbpf_sys_error(call: Seq<char>, status: i32) -> ErrorView {
    ErrorView::Libbpf(call, LibbpfError::LibbpfSys(status))
}

} // verus!
