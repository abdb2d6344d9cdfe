//! Conversions between Rust strings and the NUL-terminated strings of C, and
//! the shorthands that build an [`Error`].
use crate::error::{Error, ErrorView, GenericError, GenericErrorView, LibbpfError};
use vstd::prelude::*;
use vstd::string::StringSliceAdditionalSpecFns;
use vstd::utf8::{decode_utf8, decode_utf8_encode_utf8, encode_utf8_decode_utf8, valid_utf8};

verus! {

/// `core::str::from_utf8` accepts exactly the byte strings that are UTF-8,
/// and the text it returns is made of the bytes it was given.
pub assume_specification[ core::str::from_utf8 ](bytes: &[u8]) -> (text: Result<
    &str,
    core::str::Utf8Error,
>)
    ensures
        text is Ok <==> valid_utf8(bytes@),
        text matches Ok(s) ==> s.spec_bytes() == bytes@,
;

/// `n` is where the C string that starts `bytes` ends: no byte before `n` is
/// NUL, and `n` is the place of a NUL byte or the end of `bytes`.
pub open spec fn is_c_str_len(bytes: Seq<u8>, n: int) -> bool {
    &&& 0 <= n <= bytes.len()
    &&& forall|j: int| 0 <= j < n ==> bytes[j] != 0
    &&& n < bytes.len() ==> bytes[n] == 0
}

/// The length of the C string that starts `bytes`: the place of the first NUL
/// byte, or the length of `bytes` where it holds none.
pub open spec fn c_str_len(bytes: Seq<u8>) -> int {
    choose|n: int| is_c_str_len(bytes, n)
}

/// The bytes of the C string that starts `bytes`, without the NUL.
pub open spec fn c_str_bytes(bytes: Seq<u8>) -> Seq<u8> {
    bytes.take(c_str_len(bytes))
}

/// A byte string has one C string length, and `c_str_len` is it.
pub proof fn lemma_c_str_len_unique(bytes: Seq<u8>, n: int)
    requires
        is_c_str_len(bytes, n),
    ensures
        c_str_len(bytes) == n,
{
    let m = c_str_len(bytes);
    assert(is_c_str_len(bytes, m));
    if m < n {
        assert(bytes[m] != 0);
    } else if n < m {
        assert(bytes[n] != 0);
    }
}

/// The text of a path, given what the path answered when asked for its
/// text: `None` where the path is not Unicode.
pub fn path_to_str<'a>(text: Option<&'a str>) -> (r: Result<&'a str, Error>)
    ensures
        text matches Some(s) ==> r == Ok::<&str, Error>(s),
        text is None ==> (r matches Err(e) && e@ == ErrorView::Generic(
            GenericErrorView::InvalidPath,
        )),
{
    text.ok_or(Error::Generic(GenericError::InvalidPath))
}

/// The bytes of `s` followed by one NUL byte: the form in which C takes a
/// string. A string that holds a NUL byte has no such form; the error gives
/// the place of its first NUL byte.
pub fn str_to_cstring(s: &str) -> (r: Result<Vec<u8>, Error>)
    ensures
        r is Ok <==> !s.spec_bytes().contains(0u8),
        r matches Ok(c) ==> c@ == s.spec_bytes().push(0u8),
        r matches Err(e) ==> e@ == ErrorView::Generic(
            GenericErrorView::CStringConversion(c_str_len(s.spec_bytes()) as usize),
        ),
{
    let bytes = s.as_bytes();
    let mut c: Vec<u8> = Vec::new();
    let mut i: usize = 0;
    while i < bytes.len()
        invariant
            i <= bytes.len(),
            bytes@ == s.spec_bytes(),
            c@ == bytes@.take(i as int),
            forall|j: int| 0 <= j < i ==> bytes@[j] != 0,
        decreases bytes.len() - i,
    {
        let b: u8 = bytes[i];
        if b == 0 {
            proof {
                lemma_c_str_len_unique(bytes@, i as int);
                assert(bytes@[i as int] == 0u8);
            }
            return Err(Error::Generic(GenericError::CStringConversion(i)));
        }
        c.push(b);
        assert(bytes@.take(i + 1) == bytes@.take(i as int).push(b));
        i += 1;
    }
    assert(bytes@.take(i as int) == bytes@);
    assert(!bytes@.contains(0u8));
    c.push(0);
    Ok(c)
}

/// The error of handing `text` to C: none where `text` holds no NUL byte, and
/// else the place of its first NUL byte.
pub open spec fn c_string_error(text: &str) -> Option<ErrorView> {
    if text.spec_bytes().contains(0u8) {
        Some(
            ErrorView::Generic(
                GenericErrorView::CStringConversion(c_str_len(text.spec_bytes()) as usize),
            ),
        )
    } else {
        None
    }
}

/// The error of handing a path to C, given the text of the path (`None` for
/// a path that is not Unicode): `InvalidPath` for a path without text, and
/// else the error of handing the text to C.
pub open spec fn path_error(text: Option<&str>) -> Option<ErrorView> {
    match text {
        None => Some(ErrorView::Generic(GenericErrorView::InvalidPath)),
        Some(text) => c_string_error(text),
    }
}

/// A path in the form in which C takes it, given the text of the path
/// (`None` for a path that is not Unicode): the bytes of the text followed by
/// one NUL byte. A path without text is `InvalidPath`, and a text that holds
/// a NUL byte is an error that gives the place of its first NUL byte.
pub fn path_to_cstring(text: Option<&str>) -> (r: Result<Vec<u8>, Error>)
    ensures
        r is Ok <==> path_error(text) is None,
        r matches Ok(c) ==> text matches Some(t) && c@ == t.spec_bytes().push(0u8),
        r matches Err(e) ==> Some(e@) == path_error(text),
{
    match path_to_str(text) {
        Ok(text) => str_to_cstring(text),
        Err(e) => Err(e),
    }
}

/// The text of the C string that starts `c_chars`: its bytes up to the first
/// NUL byte (all of them where there is none), read as UTF-8.
pub fn c_char_pointer_to_string(c_chars: &[u8]) -> (r: Result<String, Error>)
    ensures
        r is Ok <==> valid_utf8(c_str_bytes(c_chars@)),
        r matches Ok(s) ==> s@ == decode_utf8(c_str_bytes(c_chars@)),
        r matches Err(e) ==> e@ matches ErrorView::Generic(GenericErrorView::CCharConversion(_)),
{
    let mut n: usize = 0;
    while n < c_chars.len() && c_chars[n] != 0
        invariant
            n <= c_chars.len(),
            forall|j: int| 0 <= j < n ==> c_chars@[j] != 0,
        decreases c_chars.len() - n,
    {
        n += 1;
    }
    proof {
        lemma_c_str_len_unique(c_chars@, n as int);
    }
    let text = vstd::slice::slice_subrange(c_chars, 0, n);
    match core::str::from_utf8(text) {
        Ok(s) => {
            proof {
                decode_utf8_encode_utf8(text@);
                encode_utf8_decode_utf8(s@);
            }
            Ok(s.to_owned())
        },
        Err(cause) => Err(Error::Generic(GenericError::CCharConversion(cause))),
    }
}

pub fn map_generic_error<T>(e: GenericError) -> (r: Result<T, Error>)
    ensures
        r matches Err(err) && err == Error::Generic(e),
{
    Err(Error::Generic(e))
}

/// The failure `e` of the kernel call named `function_name`.
pub fn map_libbpf_error<T>(function_name: &str, e: LibbpfError) -> (r: Result<T, Error>)
    ensures
        r matches Err(err) && err@ == ErrorView::Libbpf(function_name@, e),
{
    Err(Error::Libbpf(function_name.to_owned(), e))
}

/// The failure of the kernel call named `function_name` that returned the
/// status `e`.
pub fn map_libbpf_sys_error<T>(function_name: &str, e: i32) -> (r: Result<T, Error>)
    ensures
        r matches Err(err) && err@ == ErrorView::Libbpf(
            function_name@,
            LibbpfError::LibbpfSys(e),
        ),
{
    Err(Error::Libbpf(function_name.to_owned(), LibbpfError::LibbpfSys(e)))
}

} // verus!
