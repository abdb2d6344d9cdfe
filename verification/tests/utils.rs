use rebpf::error::{Error, GenericError, LibbpfError};
use rebpf::interface::{get_interface, if_nametoindex};
use rebpf::utils::{
    c_char_pointer_to_string, map_generic_error, map_libbpf_error, map_libbpf_sys_error,
    path_to_cstring, path_to_str, str_to_cstring,
};
use std::path::Path;

#[test]
fn path_to_str_gives_the_text() {
    let path = Path::new("/sys/fs/bpf/kern.o");
    assert_eq!(path_to_str(path.to_str()), Ok("/sys/fs/bpf/kern.o"));
}

#[test]
fn path_without_text_is_invalid() {
    assert_eq!(
        path_to_str(None),
        Err(Error::Generic(GenericError::InvalidPath))
    );
}

#[test]
fn str_to_cstring_appends_one_nul() {
    assert_eq!(str_to_cstring("eth0"), Ok(vec![b'e', b't', b'h', b'0', 0]));
    assert_eq!(str_to_cstring(""), Ok(vec![0]));
    assert_eq!(
        str_to_cstring("\u{e9}"),
        Ok(vec![0xc3, 0xa9, 0])
    );
}

#[test]
fn str_to_cstring_keeps_every_byte() {
    assert_eq!(
        str_to_cstring("\u{4e16}\u{754c}"),
        Ok(vec![0xe4, 0xb8, 0x96, 0xe7, 0x95, 0x8c, 0])
    );
    assert_eq!(
        str_to_cstring("a b"),
        Ok(vec![b'a', b' ', b'b', 0])
    );
}

#[test]
fn str_to_cstring_reports_the_first_nul() {
    assert_eq!(
        str_to_cstring("ab\0cd\0"),
        Err(Error::Generic(GenericError::CStringConversion(2)))
    );
    assert_eq!(
        str_to_cstring("\0"),
        Err(Error::Generic(GenericError::CStringConversion(0)))
    );
    assert_eq!(
        str_to_cstring("abcd\0"),
        Err(Error::Generic(GenericError::CStringConversion(4)))
    );
}

#[test]
fn c_string_ends_at_the_first_nul() {
    let name: [u8; 16] = *b"xdp_stats_map\0\0\0";
    assert_eq!(
        c_char_pointer_to_string(&name),
        Ok("xdp_stats_map".to_string())
    );
    assert_eq!(
        c_char_pointer_to_string(b"abc\0def\0"),
        Ok("abc".to_string())
    );
    assert_eq!(c_char_pointer_to_string(b"\0abc"), Ok(String::new()));
}

#[test]
fn c_string_without_nul_is_taken_whole() {
    assert_eq!(c_char_pointer_to_string(b"abc"), Ok("abc".to_string()));
    assert_eq!(c_char_pointer_to_string(b""), Ok(String::new()));
}

#[test]
fn c_string_is_decoded_as_utf8() {
    assert_eq!(
        c_char_pointer_to_string(&[0xc3, 0xa9, b'!', 0, 0xff]),
        Ok("\u{e9}!".to_string())
    );
}

#[test]
fn c_string_that_is_not_utf8_is_an_error() {
    let cause = std::str::from_utf8(&[b'a', 0xff, b'b']).unwrap_err();
    assert_eq!(
        c_char_pointer_to_string(&[b'a', 0xff, b'b', 0]),
        Err(Error::Generic(GenericError::CCharConversion(cause)))
    );
    // Bytes after the NUL play no part.
    assert_eq!(
        c_char_pointer_to_string(&[b'a', 0, 0xff]),
        Ok("a".to_string())
    );
}

#[test]
fn error_shorthands() {
    assert_eq!(
        map_generic_error::<u8>(GenericError::OutOfIndex),
        Err(Error::Generic(GenericError::OutOfIndex))
    );
    assert_eq!(
        map_libbpf_error::<u8>("bpf_map__fd", LibbpfError::InvalidFd),
        Err(Error::Libbpf(
            "bpf_map__fd".to_string(),
            LibbpfError::InvalidFd
        ))
    );
    assert_eq!(
        map_libbpf_error::<u8>("bpf_program__title", LibbpfError::InvalidTitle),
        Err(Error::Libbpf(
            "bpf_program__title".to_string(),
            LibbpfError::InvalidTitle
        ))
    );
    assert_eq!(
        map_libbpf_sys_error::<()>("bpf_prog_load", -22),
        Err(Error::Libbpf(
            "bpf_prog_load".to_string(),
            LibbpfError::LibbpfSys(-22)
        ))
    );
}

#[test]
fn error_variants_differ() {
    assert_ne!(Error::InvalidProgName, Error::InvalidMapName);
    assert_ne!(
        Error::Custom("a".to_string()),
        Error::Custom("b".to_string())
    );
    assert_ne!(
        Error::Generic(GenericError::InvalidPath),
        Error::Generic(GenericError::OutOfIndex)
    );
}

#[test]
fn interface_of_a_known_name() {
    let interface = get_interface("eth0", 3).unwrap();
    assert_eq!(interface.ifindex(), 3);
    assert_eq!(if_nametoindex("lo", 1), Ok(1));
    assert_eq!(if_nametoindex("lo", u32::MAX), Ok(u32::MAX));
}

#[test]
fn interface_name_with_a_nul_byte_is_never_asked_for() {
    assert_eq!(
        get_interface("a\0b", 5),
        Err(Error::Generic(GenericError::CStringConversion(1)))
    );
    assert_eq!(
        get_interface("a\0b", 0),
        Err(Error::Generic(GenericError::CStringConversion(1)))
    );
    assert_eq!(
        if_nametoindex("eth0\0", 3),
        Err(Error::Generic(GenericError::CStringConversion(4)))
    );
    assert_eq!(
        if_nametoindex("\0\0", 0),
        Err(Error::Generic(GenericError::CStringConversion(0)))
    );
}

#[test]
fn path_to_cstring_gives_the_loaders_argument() {
    assert_eq!(
        path_to_cstring(Some("kern.o")),
        Ok(vec![b'k', b'e', b'r', b'n', b'.', b'o', 0])
    );
    assert_eq!(
        path_to_cstring(None),
        Err(Error::Generic(GenericError::InvalidPath))
    );
    assert_eq!(
        path_to_cstring(Some("ke\0rn.o")),
        Err(Error::Generic(GenericError::CStringConversion(2)))
    );
}

#[test]
fn interface_of_an_unknown_name() {
    assert_eq!(
        get_interface("nope0", 0),
        Err(Error::Generic(GenericError::InvalidInterfaceName(
            "nope0".to_string()
        )))
    );
    assert_eq!(
        if_nametoindex("", 0),
        Err(Error::Generic(GenericError::InvalidInterfaceName(
            String::new()
        )))
    );
}
