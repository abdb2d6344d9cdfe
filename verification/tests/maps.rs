use rebpf::bpf::maps::{
    Array as KernArray, CpuMap as KernCpuMap, DevMap, LookupMut, PerCpuArray as KernPerCpuArray,
    Redirect, XskMap,
};
use rebpf::bpf::utils::get_unsafe_slice_range;
use rebpf::error::{Error, LibbpfError};
use rebpf::helpers::{
    bpf_map_lookup_elem as helper_lookup, bpf_map_update_elem as helper_update,
    bpf_redirect_map, redirect_flags_argument, update_flags_argument,
};
use rebpf::layout::ScalarLayout;
use rebpf::libbpf::{
    bpf_map__fd, bpf_object__find_map_by_name, BpfFd, BpfInfo, BpfMapDef, BpfMapInfo, BpfMapType,
    BpfUpdateElemFlags, RawMapInfo, XdpAction, ENOENT,
};
use rebpf::map_layout::{MapLayout, PtrChecked, PtrCheckedMut, ScalarBuffer};
use rebpf::maps::Update as KernUpdate;
use rebpf::userspace::maps::{
    check_info, extract_checked_info, extract_map_fd, Array, CpuMap, LoadedMap, Lookup,
    PerCpuArray, Update,
};
use rebpf::userspace::per_cpu::{PerCpuBuffer, PerCpuLayout};
use rebpf::xdp::{flags_bits, xdp_link_arguments, XdpFlags, XdpMetadata};

const MISMATCH: &str = "The wrapper type doesn't match the map object";

fn info(type_: BpfMapType, key_size: u32, value_size: u32) -> RawMapInfo {
    RawMapInfo {
        type_: type_.as_u32(),
        id: 3,
        key_size,
        value_size,
        max_entries: 5,
        map_flags: 0,
        name: [0; 16],
    }
}

fn array_u64() -> Array<u64> {
    let fd = bpf_map__fd::<u32, u64>(4).ok().unwrap();
    let described = BpfMapInfo::new(info(BpfMapType::ARRAY, 4, 8));
    Array::from_obj(fd, &described, ScalarLayout).ok().unwrap()
}

fn per_cpu_array_u32(nb_cpus: usize) -> PerCpuArray<u32> {
    let fd = bpf_map__fd::<u32, u32>(5).ok().unwrap();
    let described = BpfMapInfo::new(info(BpfMapType::PERCPU_ARRAY, 4, 4));
    PerCpuArray::from_obj(fd, &described, PerCpuLayout::new(nb_cpus))
        .ok()
        .unwrap()
}

#[test]
fn array_handle_for_a_matching_map() {
    let map = array_u64();
    assert_eq!(map.fd().fd(), 4);
    assert_eq!(Array::<u64>::map_type(), BpfMapType::ARRAY);
    assert_eq!(PerCpuArray::<u64>::map_type(), BpfMapType::PERCPU_ARRAY);
    assert_eq!(CpuMap::map_type(), BpfMapType::CPUMAP);
}

#[test]
fn array_of_u64_rejects_a_hash_map() {
    let fd = bpf_map__fd::<u32, u64>(4).ok().unwrap();
    let described = BpfMapInfo::new(info(BpfMapType::HASH, 4, 8));
    assert_eq!(
        Array::<u64>::from_obj(fd, &described, ScalarLayout).err(),
        Some(Error::Custom(MISMATCH.to_string()))
    );
}

#[test]
fn array_of_u64_rejects_values_of_4_bytes() {
    let fd = bpf_map__fd::<u32, u64>(4).ok().unwrap();
    let described = BpfMapInfo::new(info(BpfMapType::ARRAY, 4, 4));
    assert_eq!(
        Array::<u64>::from_obj(fd, &described, ScalarLayout).err(),
        Some(Error::Custom(MISMATCH.to_string()))
    );
}

#[test]
fn array_rejects_keys_of_another_size() {
    let fd = bpf_map__fd::<u32, u64>(4).ok().unwrap();
    let described = BpfMapInfo::new(info(BpfMapType::ARRAY, 8, 8));
    assert_eq!(
        Array::<u64>::from_obj(fd, &described, ScalarLayout).err(),
        Some(Error::Custom(MISMATCH.to_string()))
    );
}

#[test]
fn per_cpu_array_and_cpu_map_check_their_kind() {
    let fd = bpf_map__fd::<u32, u32>(5).ok().unwrap();
    let array = BpfMapInfo::new(info(BpfMapType::ARRAY, 4, 4));
    assert_eq!(
        PerCpuArray::<u32>::from_obj(fd, &array, PerCpuLayout::new(2)).err(),
        Some(Error::Custom(MISMATCH.to_string()))
    );
    let fd = bpf_map__fd::<u32, u32>(6).ok().unwrap();
    assert_eq!(
        CpuMap::from_obj(fd, &array, ScalarLayout).err(),
        Some(Error::Custom(MISMATCH.to_string()))
    );
    let fd = bpf_map__fd::<u32, u32>(6).ok().unwrap();
    let cpu_map = BpfMapInfo::new(info(BpfMapType::CPUMAP, 4, 4));
    assert_eq!(
        CpuMap::from_obj(fd, &cpu_map, ScalarLayout)
            .ok()
            .unwrap()
            .fd()
            .fd(),
        6
    );
}

#[test]
fn extract_info_checks_the_description() {
    let map = array_u64();
    let checked = map
        .extract_info(0, info(BpfMapType::ARRAY, 4, 8))
        .ok()
        .unwrap();
    assert_eq!(checked.value_size(), 8);
    assert_eq!(checked.max_entries(), 5);
    assert_eq!(
        map.extract_info(0, info(BpfMapType::HASH, 4, 8)).err(),
        Some(Error::Custom(MISMATCH.to_string()))
    );
    assert_eq!(
        map.extract_info(0, info(BpfMapType::ARRAY, 4, 4)).err(),
        Some(Error::Custom(MISMATCH.to_string()))
    );
    assert_eq!(
        map.extract_info(-9, info(BpfMapType::ARRAY, 4, 8)).err(),
        Some(Error::Libbpf(
            "bpf_obj_get_info_by_fd".to_string(),
            LibbpfError::LibbpfSys(-9)
        ))
    );
}

#[test]
fn checked_info_of_a_descriptor() {
    let fd = bpf_map__fd::<u32, u16>(8).ok().unwrap();
    assert!(extract_checked_info(&fd, BpfMapType::HASH, 0, info(BpfMapType::HASH, 4, 2)).is_ok());
    assert_eq!(
        extract_checked_info(&fd, BpfMapType::HASH, 0, info(BpfMapType::HASH, 4, 4)).err(),
        Some(Error::Custom(MISMATCH.to_string()))
    );
    assert!(check_info::<u32, u16>(
        BpfMapInfo::new(info(BpfMapType::HASH, 4, 2)),
        BpfMapType::HASH
    )
    .is_ok());
    assert_eq!(
        check_info::<u32, u16>(
            BpfMapInfo::new(info(BpfMapType::HASH, 4, 2)),
            BpfMapType::ARRAY
        )
        .err(),
        Some(Error::Custom(MISMATCH.to_string()))
    );
}

#[test]
fn map_descriptor_by_name() {
    let map = bpf_object__find_map_by_name("xdp_stats_map", 0x3000).unwrap();
    assert_eq!(extract_map_fd::<u32, u64>(map, 7).ok().unwrap().fd(), 7);
    let none = bpf_object__find_map_by_name("xdp_stats_map", 0).unwrap();
    assert_eq!(
        extract_map_fd::<u32, u64>(none, 7).err(),
        Some(Error::InvalidMapName)
    );
    let map = bpf_object__find_map_by_name("xdp_stats_map", 0x3000).unwrap();
    assert_eq!(
        extract_map_fd::<u32, u64>(map, -1).err(),
        Some(Error::Libbpf(
            "bpf_map__fd".to_string(),
            LibbpfError::InvalidFd
        ))
    );
}

#[test]
fn lookup_in_an_empty_map_finds_nothing() {
    let map = array_u64();
    for key in 0..5u32 {
        let buffer = map.lookup_buffer();
        let found = map.lookup(&key, buffer, -ENOENT).ok().unwrap();
        assert!(found.is_none());
    }
    let per_cpu = per_cpu_array_u32(4);
    for key in 0..5u32 {
        let buffer = per_cpu.lookup_buffer();
        assert!(per_cpu.lookup(&key, buffer, -ENOENT).ok().unwrap().is_none());
    }
}

#[test]
fn lookup_gives_what_the_kernel_wrote() {
    let map = array_u64();
    let mut buffer = map.lookup_buffer();
    buffer
        .ptr_checked_mut(map.layout())
        .copy_from_slice(&77u64.to_ne_bytes());
    let value: ScalarBuffer<u64> = map.lookup(&2, buffer, 0).ok().unwrap().unwrap();
    assert_eq!(value.as_bytes(), &77u64.to_ne_bytes()[..]);
}

#[test]
fn lookup_failure_is_an_error_and_not_a_miss() {
    let map = array_u64();
    let buffer = map.lookup_buffer();
    assert_eq!(
        map.lookup(&9, buffer, -22).err(),
        Some(Error::Libbpf(
            "bpf_map_lookup_elem".to_string(),
            LibbpfError::LibbpfSys(-22)
        ))
    );
    let buffer = map.lookup_buffer();
    assert_eq!(
        map.lookup(&9, buffer, -1).err(),
        Some(Error::Libbpf(
            "bpf_map_lookup_elem".to_string(),
            LibbpfError::LibbpfSys(-1)
        ))
    );
}

#[test]
fn per_cpu_lookup_gives_one_value_per_cpu() {
    let map = per_cpu_array_u32(3);
    let mut buffer = map.lookup_buffer();
    {
        let memory = buffer.ptr_checked_mut(map.layout());
        assert_eq!(memory.len(), 24);
        for cpu in 0..3usize {
            memory[cpu * 8..cpu * 8 + 4].copy_from_slice(&(100 + cpu as u32).to_ne_bytes());
        }
    }
    let values: PerCpuBuffer<u32> = map.lookup(&0, buffer, 0).ok().unwrap().unwrap();
    assert!(values.is_initialized());
    assert!(values.check(map.layout()));
    let mut iter = values.into_iter();
    let mut got = Vec::new();
    while let Some(bytes) = iter.next() {
        got.push(u32::from_ne_bytes([bytes[0], bytes[1], bytes[2], bytes[3]]));
    }
    assert_eq!(got, vec![100, 101, 102]);
}

#[test]
fn update_status_decides() {
    let mut map = array_u64();
    let value = <ScalarLayout as MapLayout<u64>>::allocate(&ScalarLayout, &[&5u64.to_ne_bytes()]);
    assert!(value.check(map.layout()));
    assert_eq!(map.update(&1, &value, BpfUpdateElemFlags::ANY(), 0), Ok(()));
    assert_eq!(
        map.update(&1, &value, BpfUpdateElemFlags::NOEXIST(), -17),
        Err(Error::Libbpf(
            "bpf_map_update_elem".to_string(),
            LibbpfError::LibbpfSys(-17)
        ))
    );
    assert_eq!(
        map.update(&1, &value, BpfUpdateElemFlags::EXIST(), -2),
        Err(Error::Libbpf(
            "bpf_map_update_elem".to_string(),
            LibbpfError::LibbpfSys(-2)
        ))
    );
    assert_eq!(map.fd().fd(), 4);
}

#[test]
fn per_cpu_update_takes_a_buffer_of_all_cpus() {
    let mut map = per_cpu_array_u32(2);
    let items: Vec<&[u8]> = vec![&[1, 0, 0, 0], &[2, 0, 0, 0]];
    let value = PerCpuBuffer::<u32>::from_iter(&items, 2);
    assert!(value.check(map.layout()));
    assert_eq!(value.ptr_checked(map.layout()).len(), 16);
    assert_eq!(map.update(&0, &value, BpfUpdateElemFlags::ANY(), 0), Ok(()));
}

#[test]
fn kernel_side_maps_declare_kind_and_sizes() {
    let cpu_map = KernCpuMap::new(8);
    let raw = cpu_map.map_def().to_bpf_map_info();
    assert_eq!(raw.type_(), BpfMapType::CPUMAP);
    assert_eq!(raw.key_size(), 4);
    assert_eq!(raw.value_size(), 4);
    assert_eq!(raw.max_entries(), 8);
    let xsk = XskMap::new(1).map_def().to_bpf_map_info();
    assert_eq!(xsk.type_(), BpfMapType::XSKMAP);
    let dev = DevMap::new(1).map_def().to_bpf_map_info();
    assert_eq!(dev.type_(), BpfMapType::DEVMAP);
    let array = KernArray::<[u8; 24]>::new(5)
        .map_def()
        .to_bpf_map_info();
    assert_eq!(array.type_(), BpfMapType::ARRAY);
    assert_eq!(array.value_size(), 24);
    assert_eq!(array.max_entries(), 5);
    let per_cpu = KernPerCpuArray::<u64>::new(5).map_def().to_bpf_map_info();
    assert_eq!(per_cpu.type_(), BpfMapType::PERCPU_ARRAY);
    assert_eq!(per_cpu.value_size(), 8);
}

#[test]
fn redirect_gives_the_kernels_verdict() {
    let map = KernCpuMap::new(8);
    assert_eq!(map.redirect(2, 4), XdpAction::REDIRECT);
    assert_eq!(map.redirect(2, 0), XdpAction::ABORTED);
    assert_eq!(map.redirect_or(2, XdpAction::PASS, 4), XdpAction::REDIRECT);
    assert_eq!(map.redirect_or(2, XdpAction::PASS, 2), XdpAction::PASS);
    assert_eq!(map.redirect_or(2, XdpAction::DROP, 1), XdpAction::DROP);
    assert_eq!(map.redirect_or(2, XdpAction::TX, 3), XdpAction::TX);
    assert_eq!(XskMap::new(1).redirect(0, 4), XdpAction::REDIRECT);
    assert_eq!(DevMap::new(1).redirect_or(0, XdpAction::DROP, 1), XdpAction::DROP);
}

#[test]
fn redirect_falls_back_on_an_answer_that_is_no_verdict() {
    let def: BpfMapDef<u32, u32> = BpfMapDef::new(BpfMapType::DEVMAP, 1);
    assert_eq!(bpf_redirect_map(&def, &0, XdpAction::PASS, 9), XdpAction::PASS);
    assert_eq!(bpf_redirect_map(&def, &0, XdpAction::DROP, -1), XdpAction::DROP);
    assert_eq!(bpf_redirect_map(&def, &0, XdpAction::DROP, 4), XdpAction::REDIRECT);
}

#[test]
fn redirect_default_must_be_terminal() {
    // The default verdict travels to the kernel as flags, which hold no
    // more than TX; REDIRECT is not among the verdicts that can be handed.
    assert!(!XdpAction::REDIRECT.is_terminal());
    assert!(XdpAction::REDIRECT.as_u32() > XdpAction::TX.as_u32());
    for action in [
        XdpAction::ABORTED,
        XdpAction::DROP,
        XdpAction::PASS,
        XdpAction::TX,
    ] {
        assert!(action.is_terminal());
        assert_eq!(redirect_flags_argument(action), action.as_u32() as u64);
    }
}

#[test]
fn helper_lookup_and_update() {
    let array = KernArray::<u64>::new(5);
    assert!(array.lookup_mut(&2, 0).is_none());
    assert_eq!(array.lookup_mut(&2, 0x7000).unwrap().address(), 0x7000);
    let per_cpu = KernPerCpuArray::<u64>::new(5);
    assert_eq!(per_cpu.lookup_mut(&2, 0x7008).unwrap().address(), 0x7008);
    assert!(helper_lookup(array.map_def(), 0).is_none());
    assert_eq!(helper_update(0), Ok(()));
    assert_eq!(helper_update(3), Ok(()));
    assert_eq!(
        helper_update(-7),
        Err(Error::Libbpf(
            "bpf_map_update_elem".to_string(),
            LibbpfError::LibbpfSys(-7)
        ))
    );
    assert_eq!(update_flags_argument(BpfUpdateElemFlags::EXIST()), 2);
    let mut array = array;
    assert_eq!(
        KernUpdate::update(&mut array, &2, &9, BpfUpdateElemFlags::ANY(), 0),
        Ok(())
    );
    assert_eq!(
        KernUpdate::update(&mut array, &2, &9, BpfUpdateElemFlags::EXIST(), -2),
        Err(Error::Libbpf(
            "bpf_map_update_elem".to_string(),
            LibbpfError::LibbpfSys(-2)
        ))
    );
}

#[test]
fn slice_range() {
    let packet = [10u8, 11, 12, 13, 14, 15];
    assert_eq!(get_unsafe_slice_range(&packet, 1, 4), &[11u8, 12, 13][..]);
    assert_eq!(get_unsafe_slice_range(&packet, 0, 6), &packet[..]);
    assert!(get_unsafe_slice_range(&packet, 3, 3).is_empty());
}

#[test]
fn xdp_flags_are_joined_by_or() {
    assert_eq!(flags_bits(&[]), 0);
    assert_eq!(flags_bits(&[XdpFlags::SKB_MODE]), 2);
    assert_eq!(
        flags_bits(&[XdpFlags::UPDATE_IF_NOEXIST, XdpFlags::SKB_MODE]),
        3
    );
    assert_eq!(
        flags_bits(&[XdpFlags::SKB_MODE, XdpFlags::SKB_MODE, XdpFlags::HW_MODE]),
        10
    );
    assert_eq!(flags_bits(&[XdpFlags::MODES, XdpFlags::DRV_MODE]), 14);
    assert_eq!(flags_bits(&[XdpFlags::MASK]), 15);
    assert_eq!(XdpFlags::DRV_MODE.bits(), 4);
}

#[test]
fn xdp_link_arguments_from_a_list_of_flags() {
    let interface = rebpf::interface::get_interface("eth0", 2).unwrap();
    let prog_fd = rebpf::libbpf::bpf_program__fd(6).ok().unwrap();
    let flags = [XdpFlags::UPDATE_IF_NOEXIST, XdpFlags::DRV_MODE];
    assert_eq!(
        xdp_link_arguments(&interface, Some(&prog_fd), &flags),
        (2, 6, 5)
    );
    assert_eq!(xdp_link_arguments(&interface, None, &flags), (2, -1, 5));
    assert_eq!(rebpf::xdp::bpf_set_link_xdp_fd(0), Ok(()));
    assert_eq!(
        rebpf::xdp::bpf_set_link_xdp_fd(-1),
        Err(Error::Libbpf(
            "bpf_set_link_xdp_fd".to_string(),
            LibbpfError::LibbpfSys(-1)
        ))
    );
}

#[test]
fn xdp_metadata_keeps_the_record() {
    let raw = rebpf::libbpf::RawXdpMd {
        data: 1,
        data_end: 2,
        data_meta: 3,
        ingress_ifindex: 4,
        rx_queue_index: 5,
    };
    assert_eq!(XdpMetadata::new(raw).into_raw(), raw);
    assert_eq!(rebpf::xdp::XdpAction::PASS, XdpAction::PASS);
}

/// One step of a core that counts a packet: it either adds one to the
/// counter in one piece, or reads the counter, or writes back what it read
/// plus one.
#[derive(Clone, Copy)]
enum Step {
    AtomicAdd,
    Read(usize),
    Write(usize),
}

fn read_counter(memory: &[u8], key: u32) -> u64 {
    let map = array_u64();
    let mut buffer = map.lookup_buffer();
    let at = key as usize * 8;
    buffer
        .ptr_checked_mut(map.layout())
        .copy_from_slice(&memory[at..at + 8]);
    let value = map.lookup(&key, buffer, 0).ok().unwrap().unwrap();
    let mut bytes = [0u8; 8];
    bytes.copy_from_slice(value.ptr_checked(map.layout()));
    u64::from_ne_bytes(bytes)
}

fn write_counter(memory: &mut [u8], key: u32, count: u64) {
    let at = key as usize * 8;
    let value = <ScalarLayout as MapLayout<u64>>::allocate(&ScalarLayout, &[&count.to_ne_bytes()]);
    memory[at..at + 8].copy_from_slice(value.as_bytes());
}

fn run(schedule: &[Step], memory: &mut [u8], key: u32) {
    let mut seen = [0u64; 3];
    for step in schedule {
        match *step {
            Step::AtomicAdd => {
                let count = read_counter(memory, key);
                write_counter(memory, key, count + 1);
            }
            Step::Read(core) => seen[core] = read_counter(memory, key),
            Step::Write(core) => write_counter(memory, key, seen[core] + 1),
        }
    }
}

#[test]
fn counter_atomic_increments_are_all_counted() {
    let max_entries = 5usize;
    let key = XdpAction::PASS.as_u32();
    assert!((key as usize) < max_entries);
    let mut memory = vec![0u8; max_entries * 8];
    // 100 increments from 3 cores, each in one piece.
    let schedule: Vec<Step> = (0..100).map(|_| Step::AtomicAdd).collect();
    run(&schedule, &mut memory, key);
    assert_eq!(read_counter(&memory, key), 100);
    for other in [0u32, 1, 3, 4] {
        assert_eq!(read_counter(&memory, other), 0);
    }
}

#[test]
fn counter_plain_increments_can_be_lost() {
    let max_entries = 5usize;
    let key = XdpAction::PASS.as_u32();
    let mut memory = vec![0u8; max_entries * 8];
    // The same 100 increments; the three cores read before any of them
    // writes back, as long as all three have increments left.
    let mut left = [34usize, 33, 33];
    let mut schedule = Vec::new();
    while left.iter().any(|&n| n > 0) {
        let busy: Vec<usize> = (0..3).filter(|&core| left[core] > 0).collect();
        for &core in &busy {
            schedule.push(Step::Read(core));
        }
        for &core in &busy {
            schedule.push(Step::Write(core));
            left[core] -= 1;
        }
    }
    let increments = schedule
        .iter()
        .filter(|step| matches!(step, Step::Write(_)))
        .count();
    assert_eq!(increments, 100);
    run(&schedule, &mut memory, key);
    let counted = read_counter(&memory, key);
    assert!(counted < 100);
    assert_eq!(counted, 34);
}
