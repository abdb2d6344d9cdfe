//! Typed handles to the maps of a loaded object.
//!
//! A handle binds the types of a map's keys and values and the layout of its
//! values to the file descriptor of the map. The kernel made the map from
//! what the object file declares, which need not be what the handle was
//! declared with: a handle is made only for a map whose kind and sizes are
//! those of the handle's types.
use crate::error::{libbpf_sys_error, Error, ErrorView, LibbpfError};
use crate::layout::ScalarLayout;
use crate::libbpf::{
    bpf_map__fd, bpf_map_lookup_elem, bpf_map_update_elem, bpf_obj_get_info_by_fd, size_as_u32,
    BpfFd, BpfInfo, BpfMap, BpfMapDef, BpfMapFd, BpfMapInfo, BpfMapType, BpfUpdateElemFlags,
    RawMapInfo, ENOENT,
};
use crate::map_layout::{MapLayout, PtrChecked, PtrCheckedMut};
use crate::maps::TypedMap;
use crate::userspace::per_cpu::PerCpuLayout;
use vstd::prelude::*;

verus! {

/// A typed map of a loaded object: its file descriptor and the layout of its
/// values.
pub trait LoadedMap: TypedMap {
    type Layout: MapLayout<Self::Value>;

    spec fn spec_fd(&self) -> &BpfMapFd<Self::Key, Self::Value>;

    spec fn spec_layout(&self) -> &Self::Layout;

    fn fd(&self) -> (fd: &BpfMapFd<Self::Key, Self::Value>)
        ensures
            fd == self.spec_fd(),
    ;

    fn layout(&self) -> (layout: &Self::Layout)
        ensures
            layout == self.spec_layout(),
    ;
}

/// A map whose values can be written from outside the kernel.
pub trait Update: LoadedMap {
    /// What writing `value` under `key` came to, given the status `err` that
    /// the kernel returned. Any status but 0 is a failure: the flags forbid
    /// the write, the map is full, or the kernel refused for another reason.
    /// The kernel reads `value` as the layout of the map says, so `value` is
    /// as that layout asks.
    fn update(
        &mut self,
        key: &Self::Key,
        value: &<<Self as LoadedMap>::Layout as MapLayout<Self::Value>>::Buffer,
        flags: BpfUpdateElemFlags,
        err: i32,
    ) -> (done: Result<(), Error>)
        requires
            value.is_readable(old(self).spec_layout()),
        ensures
            err == 0 ==> done == Ok::<(), Error>(()),
            err != 0 ==> (done matches Err(e) && e@ == libbpf_sys_error(
                "bpf_map_update_elem"@,
                err,
            )),
            final(self).spec_fd() == old(self).spec_fd(),
            final(self).spec_layout() == old(self).spec_layout(),
    {
        bpf_map_update_elem(err)
    }
}

/// A map whose values can be read from outside the kernel.
pub trait Lookup: LoadedMap {
    /// A buffer for the kernel to write the value of one key into.
    fn lookup_buffer(&self) -> (buffer: <<Self as LoadedMap>::Layout as MapLayout<
        Self::Value,
    >>::WritableBuffer)
        requires
            self.spec_layout().buffer_len() <= usize::MAX,
        ensures
            buffer.is_writable(self.spec_layout()),
            buffer.writable_memory().len() == self.spec_layout().buffer_len(),
    {
        self.layout().allocate_write()
    }

    /// What the map holds for `key`, given the status `err` that the kernel
    /// returned for the lookup and the buffer that it was handed to write
    /// into. The value is what the kernel wrote, where it reports that it
    /// found the key; there is no value where it reports that the map has no
    /// entry for the key; every other status is an error. A buffer is never
    /// taken for a value on any status but success.
    fn lookup(
        &self,
        key: &Self::Key,
        buffer: <<Self as LoadedMap>::Layout as MapLayout<Self::Value>>::WritableBuffer,
        err: i32,
    ) -> (found: Result<
        Option<<<Self as LoadedMap>::Layout as MapLayout<Self::Value>>::Buffer>,
        Error,
    >)
        requires
            buffer.is_writable(self.spec_layout()),
        ensures
            err == 0 ==> (found matches Ok(Some(value)) && value.is_readable(self.spec_layout())
                && value.memory() == buffer.writable_memory() && self.spec_layout().holds_values(
                &value,
            )),
            err == -ENOENT ==> found matches Ok(None),
            err != 0 && err != -ENOENT ==> (found matches Err(e) && e@ == libbpf_sys_error(
                "bpf_map_lookup_elem"@,
                err,
            )),
    {
        match bpf_map_lookup_elem(err) {
            Ok(Some(_)) => Ok(Some(self.layout().transmute(buffer))),
            Ok(None) => Ok(None),
            Err(e) => Err(e),
        }
    }
}

/// The file descriptor of the map that was asked for by name, given what the
/// loader answered: `bpf_map` is the map that it found, if any, and `fd` the
/// file descriptor that it gave for that map. An object without such a map
/// is `InvalidMapName`; a negative file descriptor is a failure.
pub fn extract_map_fd<K, V>(bpf_map: Option<BpfMap>, fd: i32) -> (r: Result<BpfMapFd<K, V>, Error>)
    ensures
        bpf_map is None ==> (r matches Err(e) && e@ == ErrorView::InvalidMapName),
        bpf_map is Some && fd >= 0 ==> (r matches Ok(map_fd) && map_fd.spec_fd() == fd),
        bpf_map is Some && fd < 0 ==> (r matches Err(e) && e@ == ErrorView::Libbpf(
            "bpf_map__fd"@,
            LibbpfError::InvalidFd,
        )),
{
    match bpf_map {
        None => Err(Error::InvalidMapName),
        Some(_) => bpf_map__fd(fd),
    }
}

/// The error for a map that is not what a handle was declared for.
pub open spec fn mismatch_error() -> ErrorView {
    ErrorView::Custom("The wrapper type doesn't match the map object"@)
}

fn mismatch<T>() -> (r: Result<T, Error>)
    ensures
        r matches Err(e) && e@ == mismatch_error(),
{
    Err(Error::Custom("The wrapper type doesn't match the map object".to_owned()))
}

/// Whether a map that the kernel describes by `info` is of the kind
/// `map_type` with keys of type `K` and values of type `V`: whether the kind
/// and the two sizes are the same.
pub open spec fn info_matches<K, V>(info: RawMapInfo, map_type: BpfMapType) -> bool {
    &&& info.type_ == map_type.spec_as_u32()
    &&& info.key_size == size_as_u32::<K>()
    &&& info.value_size == size_as_u32::<V>()
}

/// What the kernel tells about a map, held against the types of a handle:
/// the description `info`, where it is of a map of the kind `map_type` with
/// keys of type `K` and values of type `V`, and an error where it is not.
pub fn check_info<K, V>(info: BpfMapInfo, map_type: BpfMapType) -> (r: Result<BpfMapInfo, Error>)
    ensures
        info_matches::<K, V>(info.raw(), map_type) ==> r == Ok::<BpfMapInfo, Error>(info),
        !info_matches::<K, V>(info.raw(), map_type) ==> (r matches Err(e) && e@ == mismatch_error()),
{
    let expected: BpfMapDef<K, V> = BpfMapDef::new(map_type, 0);
    if info.matches_map_def::<K, V>(&expected) {
        Ok(info)
    } else {
        mismatch()
    }
}

/// The description of the map behind `map_fd`, checked, given what the kernel
/// answered when asked for it: the status `err` of the call and the record
/// `info` that the call filled. Any status but 0 is a failure, and so is the
/// description of a map of another kind than `map_type` or with other sizes
/// of keys and values than those of `K` and `V`.
pub fn extract_checked_info<K, V>(
    map_fd: &BpfMapFd<K, V>,
    map_type: BpfMapType,
    err: i32,
    info: RawMapInfo,
) -> (r: Result<BpfMapInfo, Error>)
    ensures
        err != 0 ==> (r matches Err(e) && e@ == libbpf_sys_error(
            "bpf_obj_get_info_by_fd"@,
            err,
        )),
        err == 0 && info_matches::<K, V>(info, map_type) ==> (r matches Ok(checked)
            && checked.raw() == info),
        err == 0 && !info_matches::<K, V>(info, map_type) ==> (r matches Err(e) && e@ == mismatch_error()),
{
    match bpf_obj_get_info_by_fd(map_fd, err, info) {
        Ok(described) => {
            assert(described == <BpfMapInfo as BpfInfo>::spec_new(info));
            proof {
                BpfMapInfo::lemma_new_keeps_raw(info);
            }
            check_info::<K, V>(described, map_type)
        },
        Err(e) => Err(e),
    }
}

/// A map of the CPUs that packets can be redirected to.
pub struct CpuMap {
    fd: BpfMapFd<u32, u32>,
    layout: ScalarLayout,
}

impl TypedMap for CpuMap {
    type Key = u32;

    type Value = u32;
}

impl LoadedMap for CpuMap {
    type Layout = ScalarLayout;

    closed spec fn spec_fd(&self) -> &BpfMapFd<u32, u32> {
        &self.fd
    }

    closed spec fn spec_layout(&self) -> &ScalarLayout {
        &self.layout
    }

    fn fd(&self) -> (fd: &BpfMapFd<u32, u32>) {
        &self.fd
    }

    fn layout(&self) -> (layout: &ScalarLayout) {
        &self.layout
    }
}

impl CpuMap {
    /// The kind of map that this handle is for.
    pub fn map_type() -> (map_type: BpfMapType)
        ensures
            map_type == BpfMapType::CPUMAP,
    {
        BpfMapType::CPUMAP
    }

    /// A handle to the map behind `fd`, which the kernel describes by
    /// `info`. There is no handle to a map of another kind, or with keys or
    /// values of other sizes than those of the handle's types.
    pub fn from_obj(fd: BpfMapFd<u32, u32>, info: &BpfMapInfo, layout: ScalarLayout) -> (r: Result<
        CpuMap,
        Error,
    >)
        ensures
            info_matches::<u32, u32>(info.raw(), BpfMapType::CPUMAP) ==> (r matches Ok(map)
                && map.spec_fd() == fd && map.spec_layout() == layout),
            !info_matches::<u32, u32>(info.raw(), BpfMapType::CPUMAP) ==> (r matches Err(e) && e@ == mismatch_error()),
    {
        let expected: BpfMapDef<u32, u32> = BpfMapDef::new(BpfMapType::CPUMAP, 0);
        if info.matches_map_def::<u32, u32>(&expected) {
            Ok(CpuMap { fd, layout })
        } else {
            mismatch()
        }
    }

    /// The description of the map, checked against the handle's types, given
    /// what the kernel answered when asked for it; see
    /// [`extract_checked_info`].
    pub fn extract_info(&self, err: i32, info: RawMapInfo) -> (r: Result<BpfMapInfo, Error>)
        ensures
            err != 0 ==> (r matches Err(e) && e@ == libbpf_sys_error(
                "bpf_obj_get_info_by_fd"@,
                err,
            )),
            err == 0 && info_matches::<u32, u32>(info, BpfMapType::CPUMAP) ==> (r matches Ok(
                checked,
            ) && checked.raw() == info),
            err == 0 && !info_matches::<u32, u32>(info, BpfMapType::CPUMAP) ==> (r matches Err(e) && e@ == mismatch_error()),
    {
        extract_checked_info(&self.fd, BpfMapType::CPUMAP, err, info)
    }
}

impl Update for CpuMap {

}

impl Lookup for CpuMap {

}

/// A map that is an array of values of type `T`.
pub struct Array<T> {
    fd: BpfMapFd<u32, T>,
    layout: ScalarLayout,
}

impl<T> TypedMap for Array<T> {
    type Key = u32;

    type Value = T;
}

impl<T> LoadedMap for Array<T> {
    type Layout = ScalarLayout;

    closed spec fn spec_fd(&self) -> &BpfMapFd<u32, T> {
        &self.fd
    }

    closed spec fn spec_layout(&self) -> &ScalarLayout {
        &self.layout
    }

    fn fd(&self) -> (fd: &BpfMapFd<u32, T>) {
        &self.fd
    }

    fn layout(&self) -> (layout: &ScalarLayout) {
        &self.layout
    }
}

impl<T> Array<T> {
    /// The kind of map that this handle is for.
    pub fn map_type() -> (map_type: BpfMapType)
        ensures
            map_type == BpfMapType::ARRAY,
    {
        BpfMapType::ARRAY
    }

    /// A handle to the map behind `fd`, which the kernel describes by
    /// `info`. There is no handle to a map of another kind, or with keys or
    /// values of other sizes than those of the handle's types.
    pub fn from_obj(fd: BpfMapFd<u32, T>, info: &BpfMapInfo, layout: ScalarLayout) -> (r: Result<
        Array<T>,
        Error,
    >)
        ensures
            info_matches::<u32, T>(info.raw(), BpfMapType::ARRAY) ==> (r matches Ok(map)
                && map.spec_fd() == fd && map.spec_layout() == layout),
            !info_matches::<u32, T>(info.raw(), BpfMapType::ARRAY) ==> (r matches Err(e) && e@ == mismatch_error()),
    {
        let expected: BpfMapDef<u32, T> = BpfMapDef::new(BpfMapType::ARRAY, 0);
        if info.matches_map_def::<u32, T>(&expected) {
            Ok(Array { fd, layout })
        } else {
            mismatch()
        }
    }

    /// The description of the map, checked against the handle's types, given
    /// what the kernel answered when asked for it; see
    /// [`extract_checked_info`].
    pub fn extract_info(&self, err: i32, info: RawMapInfo) -> (r: Result<BpfMapInfo, Error>)
        ensures
            err != 0 ==> (r matches Err(e) && e@ == libbpf_sys_error(
                "bpf_obj_get_info_by_fd"@,
                err,
            )),
            err == 0 && info_matches::<u32, T>(info, BpfMapType::ARRAY) ==> (r matches Ok(
                checked,
            ) && checked.raw() == info),
            err == 0 && !info_matches::<u32, T>(info, BpfMapType::ARRAY) ==> (r matches Err(e) && e@ == mismatch_error()),
    {
        extract_checked_info(&self.fd, BpfMapType::ARRAY, err, info)
    }
}

impl<T> Update for Array<T> {

}

impl<T> Lookup for Array<T> {

}

/// A map that is an array of values of type `T`, kept once per CPU. A
/// lookup gives the values of all CPUs.
pub struct PerCpuArray<T> {
    fd: BpfMapFd<u32, T>,
    layout: PerCpuLayout,
}

impl<T> TypedMap for PerCpuArray<T> {
    type Key = u32;

    type Value = T;
}

impl<T> LoadedMap for PerCpuArray<T> {
    type Layout = PerCpuLayout;

    closed spec fn spec_fd(&self) -> &BpfMapFd<u32, T> {
        &self.fd
    }

    closed spec fn spec_layout(&self) -> &PerCpuLayout {
        &self.layout
    }

    fn fd(&self) -> (fd: &BpfMapFd<u32, T>) {
        &self.fd
    }

    fn layout(&self) -> (layout: &PerCpuLayout) {
        &self.layout
    }
}

impl<T> PerCpuArray<T> {
    /// The kind of map that this handle is for.
    pub fn map_type() -> (map_type: BpfMapType)
        ensures
            map_type == BpfMapType::PERCPU_ARRAY,
    {
        BpfMapType::PERCPU_ARRAY
    }

    /// A handle to the map behind `fd`, which the kernel describes by
    /// `info`. There is no handle to a map of another kind, or with keys or
    /// values of other sizes than those of the handle's types.
    pub fn from_obj(fd: BpfMapFd<u32, T>, info: &BpfMapInfo, layout: PerCpuLayout) -> (r: Result<
        PerCpuArray<T>,
        Error,
    >)
        ensures
            info_matches::<u32, T>(info.raw(), BpfMapType::PERCPU_ARRAY) ==> (r matches Ok(map)
                && map.spec_fd() == fd && map.spec_layout() == layout),
            !info_matches::<u32, T>(info.raw(), BpfMapType::PERCPU_ARRAY) ==> (r matches Err(e) && e@ == mismatch_error()),
    {
        let expected: BpfMapDef<u32, T> = BpfMapDef::new(BpfMapType::PERCPU_ARRAY, 0);
        if info.matches_map_def::<u32, T>(&expected) {
            Ok(PerCpuArray { fd, layout })
        } else {
            mismatch()
        }
    }

    /// The description of the map, checked against the handle's types, given
    /// what the kernel answered when asked for it; see
    /// [`extract_checked_info`].
    pub fn extract_info(&self, err: i32, info: RawMapInfo) -> (r: Result<BpfMapInfo, Error>)
        ensures
            err != 0 ==> (r matches Err(e) && e@ == libbpf_sys_error(
                "bpf_obj_get_info_by_fd"@,
                err,
            )),
            err == 0 && info_matches::<u32, T>(info, BpfMapType::PERCPU_ARRAY) ==> (r matches Ok(
                checked,
            ) && checked.raw() == info),
            err == 0 && !info_matches::<u32, T>(info, BpfMapType::PERCPU_ARRAY) ==> (r matches Err(e) && e@ == mismatch_error()),
    {
        extract_checked_info(&self.fd, BpfMapType::PERCPU_ARRAY, err, info)
    }
}

impl<T> Update for PerCpuArray<T> {

}

impl<T> Lookup for PerCpuArray<T> {

}

} // verus!
