use rebpf::error::{Error, GenericError, LibbpfError};
use rebpf::interface::get_interface;
use rebpf::libbpf::{
    bpf_map__fd, bpf_map_lookup_elem, bpf_map_update_elem, bpf_obj_get_info_by_fd,
    bpf_object__find_map_by_name, bpf_object__find_program_by_title, bpf_prog_load,
    bpf_program__fd, bpf_program__next, bpf_program__title, bpf_set_link_xdp_fd,
    libbpf_num_possible_cpus, status, xdp_link_arguments, BpfFd, BpfInfo, BpfMapDef, BpfMapInfo,
    BpfMapType, BpfObject, BpfObjectIterator, BpfProgInfo, BpfProgType, BpfUpdateElemFlags,
    RawMapDef, RawMapInfo, RawProgInfo, RawXdpMd, XdpAction, XdpFlags, XdpMd, ENOENT,
};

fn libbpf_error(call: &str, cause: LibbpfError) -> Error {
    Error::Libbpf(call.to_string(), cause)
}

fn name16(text: &str) -> [u8; 16] {
    let mut name = [0u8; 16];
    name[..text.len()].copy_from_slice(text.as_bytes());
    name
}

fn map_info(type_: u32, key_size: u32, value_size: u32) -> RawMapInfo {
    RawMapInfo {
        type_,
        id: 17,
        key_size,
        value_size,
        max_entries: 5,
        map_flags: 0,
        name: name16("xdp_stats_map"),
    }
}

#[test]
fn prog_type_numbers() {
    assert_eq!(BpfProgType::UNSPEC.as_u32(), 0);
    assert_eq!(BpfProgType::SOCKET_FILTER.as_u32(), 1);
    assert_eq!(BpfProgType::XDP.as_u32(), 6);
    assert_eq!(BpfProgType::PERF_EVENT.as_u32(), 7);
    assert_eq!(BpfProgType::FLOW_DISSECTOR.as_u32(), 22);
    assert_eq!(BpfProgType::CGROUP_SOCKOPT.as_u32(), 25);
}

#[test]
fn map_type_numbers() {
    assert_eq!(BpfMapType::UNSPEC.as_u32(), 0);
    assert_eq!(BpfMapType::HASH.as_u32(), 1);
    assert_eq!(BpfMapType::ARRAY.as_u32(), 2);
    assert_eq!(BpfMapType::PERCPU_ARRAY.as_u32(), 6);
    assert_eq!(BpfMapType::DEVMAP.as_u32(), 14);
    assert_eq!(BpfMapType::CPUMAP.as_u32(), 16);
    assert_eq!(BpfMapType::XSKMAP.as_u32(), 17);
    assert_eq!(BpfMapType::DEVMAP_HASH.as_u32(), 25);
}

#[test]
fn map_type_is_found_again_from_its_number() {
    for code in 0..=25u32 {
        let map_type = BpfMapType::from_u32(code).unwrap();
        assert_eq!(map_type.as_u32(), code);
    }
    assert_eq!(BpfMapType::from_u32(2), Some(BpfMapType::ARRAY));
    assert_eq!(BpfMapType::from_u32(26), None);
    assert_eq!(BpfMapType::from_u32(u32::MAX), None);
}

#[test]
fn xdp_action_numbers() {
    assert_eq!(XdpAction::ABORTED.as_u32(), 0);
    assert_eq!(XdpAction::DROP.as_u32(), 1);
    assert_eq!(XdpAction::PASS.as_u32(), 2);
    assert_eq!(XdpAction::TX.as_u32(), 3);
    assert_eq!(XdpAction::REDIRECT.as_u32(), 4);
    for code in 0..=4i32 {
        assert_eq!(XdpAction::from_i32(code).unwrap().as_u32(), code as u32);
    }
    assert_eq!(XdpAction::from_i32(5), None);
    assert_eq!(XdpAction::from_i32(-1), None);
}

#[test]
fn only_redirect_is_not_terminal() {
    assert!(XdpAction::ABORTED.is_terminal());
    assert!(XdpAction::DROP.is_terminal());
    assert!(XdpAction::PASS.is_terminal());
    assert!(XdpAction::TX.is_terminal());
    assert!(!XdpAction::REDIRECT.is_terminal());
}

#[test]
fn update_flags_bits() {
    assert_eq!(BpfUpdateElemFlags::ANY().bits(), 0);
    assert_eq!(BpfUpdateElemFlags::NOEXIST().bits(), 1);
    assert_eq!(BpfUpdateElemFlags::EXIST().bits(), 2);
}

#[test]
fn xdp_flags_bits() {
    assert_eq!(XdpFlags::empty().bits(), 0);
    assert_eq!(XdpFlags::UPDATE_IF_NOEXIST().bits(), 1);
    assert_eq!(XdpFlags::SKB_MODE().bits(), 2);
    assert_eq!(XdpFlags::DRV_MODE().bits(), 4);
    assert_eq!(XdpFlags::HW_MODE().bits(), 8);
    assert_eq!(XdpFlags::MODES().bits(), 14);
    assert_eq!(XdpFlags::MASK().bits(), 15);
}

#[test]
fn xdp_flags_sets() {
    let modes = XdpFlags::SKB_MODE()
        .union(XdpFlags::DRV_MODE())
        .union(XdpFlags::HW_MODE());
    assert_eq!(modes, XdpFlags::MODES());
    assert_eq!(
        XdpFlags::UPDATE_IF_NOEXIST().union(XdpFlags::MODES()),
        XdpFlags::MASK()
    );
    let flags = XdpFlags::UPDATE_IF_NOEXIST().union(XdpFlags::SKB_MODE());
    assert_eq!(flags.bits(), 3);
    assert!(flags.contains(XdpFlags::SKB_MODE()));
    assert!(flags.contains(XdpFlags::empty()));
    assert!(!flags.contains(XdpFlags::DRV_MODE()));
    assert!(!flags.contains(XdpFlags::MODES()));
    assert!(XdpFlags::MASK().contains(flags));
}

#[test]
fn handles_keep_what_the_loader_gave() {
    let object = BpfObject::from_raw(0x1000);
    assert_eq!(object.as_raw(), 0x1000);
    assert_eq!(
        bpf_object__find_program_by_title("xdp_stats1", 0x2000)
            .unwrap()
            .unwrap()
            .as_raw(),
        0x2000
    );
    assert_eq!(
        bpf_object__find_map_by_name("xdp_stats_map", 0x3000)
            .unwrap()
            .unwrap()
            .as_raw(),
        0x3000
    );
    assert_eq!(bpf_program__next(0x4000).unwrap().as_raw(), 0x4000);
}

#[test]
fn no_handle_for_nothing_found() {
    assert_eq!(bpf_object__find_program_by_title("xdp_stats1", 0), Ok(None));
    assert_eq!(bpf_object__find_map_by_name("xdp_stats_map", 0), Ok(None));
    assert_eq!(bpf_program__next(0), None);
}

#[test]
fn name_with_a_nul_byte_is_never_looked_for() {
    assert_eq!(
        bpf_object__find_program_by_title("xdp\0stats", 0x2000),
        Err(Error::Generic(GenericError::CStringConversion(3)))
    );
    assert_eq!(
        bpf_object__find_program_by_title("\0", 0),
        Err(Error::Generic(GenericError::CStringConversion(0)))
    );
    assert_eq!(
        bpf_object__find_map_by_name("map\0", 0x3000),
        Err(Error::Generic(GenericError::CStringConversion(3)))
    );
}

#[test]
fn prog_load_path_errors_come_first() {
    assert_eq!(
        bpf_prog_load(None, 0, 0xabc0, 7).err(),
        Some(Error::Generic(GenericError::InvalidPath))
    );
    assert_eq!(
        bpf_prog_load(None, -2, 0, -1).err(),
        Some(Error::Generic(GenericError::InvalidPath))
    );
    assert_eq!(
        bpf_prog_load(Some("kern\0.o"), 0, 0xabc0, 7).err(),
        Some(Error::Generic(GenericError::CStringConversion(4)))
    );
    assert_eq!(
        bpf_prog_load(Some("kern\0.o"), -2, 0, -1).err(),
        Some(Error::Generic(GenericError::CStringConversion(4)))
    );
}

#[test]
fn status_of_a_call() {
    assert_eq!(status(0, None), 0);
    assert_eq!(status(0, Some(2)), 0);
    assert_eq!(status(7, Some(2)), 7);
    assert_eq!(status(-1, Some(2)), -2);
    assert_eq!(status(-1, Some(22)), -22);
    assert_eq!(status(-1, None), -1);
    assert_eq!(status(-1, Some(0)), -1);
    assert_eq!(status(-1, Some(-5)), -1);
    assert_eq!(status(-2, Some(22)), -2);
    assert_eq!(status(-22, None), -22);
    assert_eq!(bpf_map_lookup_elem(status(-1, Some(ENOENT))), Ok(None));
    assert_eq!(bpf_map_lookup_elem(status(-ENOENT, Some(22))), Ok(None));
}

#[test]
fn prog_load_gives_object_and_descriptor() {
    let (object, prog_fd) = bpf_prog_load(Some("kern.o"), 0, 0xabc0, 7).unwrap();
    assert_eq!(object.as_raw(), 0xabc0);
    assert_eq!(prog_fd.fd(), 7);
    let (_, zero_fd) = bpf_prog_load(Some("kern.o"), 0, 0xabc0, 0).unwrap();
    assert_eq!(zero_fd.fd(), 0);
}

#[test]
fn prog_load_failures() {
    assert_eq!(
        bpf_prog_load(Some("kern.o"), -2, 0, -1).err(),
        Some(libbpf_error("bpf_prog_load", LibbpfError::LibbpfSys(-2)))
    );
    assert_eq!(
        bpf_prog_load(Some("kern.o"), 1, 0xabc0, 7).err(),
        Some(libbpf_error("bpf_prog_load", LibbpfError::LibbpfSys(1)))
    );
    assert_eq!(
        bpf_prog_load(Some("kern.o"), 0, 0xabc0, -1).err(),
        Some(libbpf_error("bpf_prog_load", LibbpfError::InvalidFd))
    );
}

#[test]
fn program_descriptor() {
    assert_eq!(bpf_program__fd(5).ok().unwrap().fd(), 5);
    assert_eq!(bpf_program__fd(0).ok().unwrap().fd(), 0);
    assert_eq!(
        bpf_program__fd(-1).err(),
        Some(libbpf_error("bpf_program__fd", LibbpfError::InvalidFd))
    );
}

#[test]
fn map_descriptor() {
    assert_eq!(bpf_map__fd::<u32, u64>(9).ok().unwrap().fd(), 9);
    assert_eq!(
        bpf_map__fd::<u32, u64>(-9).err(),
        Some(libbpf_error("bpf_map__fd", LibbpfError::InvalidFd))
    );
}

#[test]
fn program_title() {
    assert_eq!(
        bpf_program__title(Some(b"xdp_stats1\0rest")),
        Ok("xdp_stats1".to_string())
    );
    assert_eq!(
        bpf_program__title(None),
        Err(libbpf_error("bpf_program__title", LibbpfError::InvalidTitle))
    );
    assert!(bpf_program__title(Some(&[0xff, 0])).is_err());
}

#[test]
fn program_info() {
    let raw = RawProgInfo {
        id: 42,
        name: name16("xdp_pass"),
    };
    let prog_fd = bpf_program__fd(5).ok().unwrap();
    let info: BpfProgInfo = bpf_obj_get_info_by_fd(&prog_fd, 0, raw).ok().unwrap();
    assert_eq!(info.id(), 42);
    assert_eq!(info.name(), Ok("xdp_pass".to_string()));
    assert_eq!(
        bpf_obj_get_info_by_fd(&prog_fd, -9, raw).err(),
        Some(libbpf_error(
            "bpf_obj_get_info_by_fd",
            LibbpfError::LibbpfSys(-9)
        ))
    );
}

#[test]
fn program_name_fills_the_record() {
    let info = BpfProgInfo::new(RawProgInfo {
        id: 1,
        name: *b"0123456789abcdef",
    });
    assert_eq!(info.name(), Ok("0123456789abcdef".to_string()));
}

#[test]
fn map_info_getters() {
    let map_fd = bpf_map__fd::<u32, u64>(4).ok().unwrap();
    let info: BpfMapInfo = bpf_obj_get_info_by_fd(&map_fd, 0, map_info(2, 4, 8))
        .ok()
        .unwrap();
    assert_eq!(info.id(), 17);
    assert_eq!(info.key_size(), 4);
    assert_eq!(info.value_size(), 8);
    assert_eq!(info.max_entries(), 5);
    assert_eq!(info.type_(), BpfMapType::ARRAY);
    assert_eq!(info.try_type(), Some(BpfMapType::ARRAY));
    assert_eq!(info.name(), Ok("xdp_stats_map".to_string()));
    assert_eq!(
        bpf_obj_get_info_by_fd(&map_fd, 3, map_info(2, 4, 8)).err(),
        Some(libbpf_error(
            "bpf_obj_get_info_by_fd",
            LibbpfError::LibbpfSys(3)
        ))
    );
}

#[test]
fn map_info_of_an_unknown_kind() {
    let info = BpfMapInfo::new(map_info(99, 4, 8));
    assert_eq!(info.try_type(), None);
}

#[test]
fn map_def_takes_sizes_from_the_types() {
    let def: BpfMapDef<u32, [u8; 24]> = BpfMapDef::new(BpfMapType::PERCPU_ARRAY, 5);
    let info = def.to_bpf_map_info();
    assert_eq!(info.type_(), BpfMapType::PERCPU_ARRAY);
    assert_eq!(info.key_size(), 4);
    assert_eq!(info.value_size(), 24);
    assert_eq!(info.max_entries(), 5);
    assert_eq!(info.id(), 0);
    assert_eq!(info.name(), Ok(String::new()));
    let same = RawMapDef {
        type_: 6,
        key_size: 4,
        value_size: 24,
        max_entries: 5,
        map_flags: 0,
    };
    assert_eq!(same.map_flags, 0);
}

#[test]
fn map_info_matches_a_definition_by_kind_and_sizes() {
    let def: BpfMapDef<u32, u64> = BpfMapDef::new(BpfMapType::ARRAY, 0);
    assert!(BpfMapInfo::new(map_info(2, 4, 8)).matches_map_def(&def));
    assert!(!BpfMapInfo::new(map_info(1, 4, 8)).matches_map_def(&def));
    assert!(!BpfMapInfo::new(map_info(2, 8, 8)).matches_map_def(&def));
    assert!(!BpfMapInfo::new(map_info(2, 4, 4)).matches_map_def(&def));
    assert!(def.to_bpf_map_info().matches_map_def(&def));
}

#[test]
fn lookup_status() {
    assert_eq!(bpf_map_lookup_elem(0), Ok(Some(())));
    assert_eq!(ENOENT, 2);
    assert_eq!(bpf_map_lookup_elem(-ENOENT), Ok(None));
    assert_eq!(
        bpf_map_lookup_elem(-1),
        Err(libbpf_error(
            "bpf_map_lookup_elem",
            LibbpfError::LibbpfSys(-1)
        ))
    );
    assert_eq!(
        bpf_map_lookup_elem(ENOENT),
        Err(libbpf_error(
            "bpf_map_lookup_elem",
            LibbpfError::LibbpfSys(2)
        ))
    );
}

#[test]
fn update_status() {
    assert_eq!(bpf_map_update_elem(0), Ok(()));
    assert_eq!(
        bpf_map_update_elem(-17),
        Err(libbpf_error(
            "bpf_map_update_elem",
            LibbpfError::LibbpfSys(-17)
        ))
    );
    assert_eq!(
        bpf_map_update_elem(-7),
        Err(libbpf_error(
            "bpf_map_update_elem",
            LibbpfError::LibbpfSys(-7)
        ))
    );
}

#[test]
fn set_link_status() {
    assert_eq!(bpf_set_link_xdp_fd(0), Ok(()));
    assert_eq!(bpf_set_link_xdp_fd(1), Ok(()));
    assert_eq!(
        bpf_set_link_xdp_fd(-16),
        Err(libbpf_error(
            "bpf_set_link_xdp_fd",
            LibbpfError::LibbpfSys(-16)
        ))
    );
}

#[test]
fn link_arguments() {
    let interface = get_interface("eth0", 3).unwrap();
    let prog_fd = bpf_program__fd(11).ok().unwrap();
    let flags = XdpFlags::UPDATE_IF_NOEXIST().union(XdpFlags::SKB_MODE());
    assert_eq!(
        xdp_link_arguments(&interface, Some(&prog_fd), flags),
        (3, 11, 3)
    );
    assert_eq!(
        xdp_link_arguments(&interface, None, XdpFlags::empty()),
        (3, -1, 0)
    );
}

#[test]
fn possible_cpus() {
    assert_eq!(libbpf_num_possible_cpus(8), Ok(8));
    assert_eq!(libbpf_num_possible_cpus(0), Ok(0));
    assert_eq!(
        libbpf_num_possible_cpus(-1),
        Err(libbpf_error(
            "libbpf_num_possible_cpus",
            LibbpfError::LibbpfSys(-1)
        ))
    );
}

#[test]
fn walk_over_the_programs_of_an_object() {
    let object = BpfObject::from_raw(0x1000);
    // The loader names three programs, then none.
    let chain = [0x10usize, 0x20, 0x30, 0];
    let mut iter = object.into_iter(bpf_program__next(chain[0]));
    let mut seen = Vec::new();
    let mut step = 1;
    loop {
        let following = match iter.peek() {
            Some(_) => {
                let answer = bpf_program__next(chain[step]);
                step += 1;
                answer
            }
            None => None,
        };
        match iter.next(following) {
            Some(program) => seen.push(program.as_raw()),
            None => break,
        }
    }
    assert_eq!(seen, vec![0x10, 0x20, 0x30]);
    assert_eq!(iter.next(bpf_program__next(0x40)), None);
    assert!(iter.peek().is_none());
}

#[test]
fn walk_over_an_object_without_programs() {
    let object = BpfObject::from_raw(0x1000);
    let mut iter = BpfObjectIterator::new(&object, None);
    assert!(iter.peek().is_none());
    assert_eq!(iter.next(bpf_program__next(0x10)), None);
    assert!(iter.peek().is_none());
}

#[test]
fn xdp_md_getters() {
    let md = XdpMd::new(RawXdpMd {
        data: 100,
        data_end: 164,
        data_meta: 96,
        ingress_ifindex: 2,
        rx_queue_index: 5,
    });
    assert_eq!(md.data(), 100);
    assert_eq!(md.data_end(), 164);
    assert_eq!(md.data_len(), 64);
    assert_eq!(md.data_meta(), 96);
    assert_eq!(md.ingress_ifindex(), 2);
    assert_eq!(md.rx_queue_index(), 5);
}
