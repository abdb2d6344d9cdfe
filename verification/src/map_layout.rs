//! Buffers for map values, by layout.
//!
//! A [`MapLayout`] says how much memory the kernel reads or writes for one
//! value of a map and makes the buffers for it. A buffer comes in two forms. A
//! writable buffer is memory for the kernel to fill; nothing reads it as a
//! value. A buffer holds values, and is what a writable buffer becomes once
//! the kernel has reported that it filled it. Keeping the two apart is what
//! keeps a program from reading a value that nobody wrote.
use crate::layout::{
    all_of_size, lemma_round_up_8, per_cpu_bytes, spec_round_up_8, ScalarLayout,
};
use crate::userspace::per_cpu::{values_of, PerCpuBuffer, PerCpuLayout};
use core::marker::PhantomData;
use vstd::arithmetic::div_mod::{lemma_fundamental_div_mod, lemma_mod_multiples_basic};
use vstd::arithmetic::power2::is_pow2;
use vstd::layout::{align_of, layout_for_type_is_valid, size_of};
use vstd::prelude::*;
use vstd::slice::slice_to_vec;

verus! {

/// A buffer that the kernel can write into.
pub trait PtrCheckedMut<T, L> {
    /// The memory of the buffer.
    spec fn writable_memory(&self) -> Seq<u8>;

    /// The buffer is as the layout asks: the kernel can write a value of the
    /// layout into it.
    spec fn is_writable(&self, layout: &L) -> bool;

    /// Whether the buffer is as the layout asks.
    fn check_mut(&self, layout: &L) -> (b: bool)
        ensures
            b == self.is_writable(layout),
    ;

    /// The memory to hand to the kernel for it to write into. A buffer that
    /// is not as the layout asks must never reach the kernel. The buffer
    /// holds afterwards what was written into the memory.
    fn ptr_checked_mut(&mut self, layout: &L) -> (memory: &mut [u8])
        requires
            old(self).is_writable(layout),
        ensures
            memory@ == old(self).writable_memory(),
            final(self).writable_memory() == final(memory)@,
    ;
}

/// A buffer that the kernel can read.
pub trait PtrChecked<T, L> {
    /// The memory of the buffer.
    spec fn memory(&self) -> Seq<u8>;

    /// The buffer is as the layout asks: the kernel can read a value of the
    /// layout from it.
    spec fn is_readable(&self, layout: &L) -> bool;

    /// Whether the buffer is as the layout asks.
    fn check(&self, layout: &L) -> (b: bool)
        ensures
            b == self.is_readable(layout),
    ;

    /// The memory to hand to the kernel for it to read. A buffer that is not
    /// as the layout asks must never reach the kernel.
    fn ptr_checked(&self, layout: &L) -> (memory: &[u8])
        requires
            self.is_readable(layout),
        ensures
            memory@ == self.memory(),
    ;
}

/// The layout of the values of type `T` of a map.
pub trait MapLayout<T>: Sized {
    /// Memory that holds values.
    type Buffer: PtrChecked<T, Self>;

    /// Memory for the kernel to fill.
    type WritableBuffer: PtrCheckedMut<T, Self>;

    /// The number of bytes that the kernel reads or writes for one value of
    /// the map.
    spec fn buffer_len(&self) -> nat;

    /// The number of values that the map holds for one key.
    spec fn spec_nb_values(&self) -> nat;

    /// The memory that holds `values`, one per value that the map holds for
    /// a key, in their order.
    spec fn filled(&self, values: Seq<Seq<u8>>) -> Seq<u8>;

    /// Whether `buffer` counts as holding values: whether it was made from
    /// values, or from memory that the kernel has filled.
    spec fn holds_values(&self, buffer: &Self::Buffer) -> bool;

    /// The number of values that the map holds for one key.
    fn nb_values(&self) -> (n: usize)
        ensures
            n == self.spec_nb_values(),
    ;

    /// Whether the machine can address a buffer of this layout.
    fn can_allocate(&self) -> (b: bool)
        ensures
            b == (self.buffer_len() <= usize::MAX),
    ;

    /// A buffer that holds `values` for the kernel to read: as many as the
    /// map holds for one key, each a `T` as bytes, in the order in which the
    /// layout keeps them.
    fn allocate(&self, values: &[&[u8]]) -> (buffer: Self::Buffer)
        requires
            values@.len() == self.spec_nb_values(),
            all_of_size(values_of(values@), size_of::<T>()),
            self.buffer_len() <= usize::MAX,
        ensures
            buffer.is_readable(self),
            buffer.memory() == self.filled(values_of(values@)),
            buffer.memory().len() == self.buffer_len(),
            self.holds_values(&buffer),
    ;

    /// A buffer for the kernel to write one value of the map into.
    fn allocate_write(&self) -> (buffer: Self::WritableBuffer)
        requires
            self.buffer_len() <= usize::MAX,
        ensures
            buffer.is_writable(self),
            buffer.writable_memory().len() == self.buffer_len(),
    ;

    /// Takes what the kernel wrote for the values that the map holds. This is
    /// for a buffer that the kernel has filled, and for no other: the bytes
    /// are taken as they are, and count as values from then on.
    fn transmute(&self, buffer: Self::WritableBuffer) -> (read: Self::Buffer)
        requires
            buffer.is_writable(self),
        ensures
            read.is_readable(self),
            read.memory() == buffer.writable_memory(),
            self.holds_values(&read),
    ;
}

/// Memory for one value of type `T` that the kernel is to fill.
pub struct ScalarWritableBuffer<T> {
    data: Vec<u8>,
    value_type: PhantomData<T>,
}

/// One value of type `T`, as the bytes that the kernel reads or wrote.
pub struct ScalarBuffer<T> {
    data: Vec<u8>,
    value_type: PhantomData<T>,
}

impl<T> ScalarBuffer<T> {
    /// The bytes of the value.
    pub closed spec fn view(&self) -> Seq<u8> {
        self.data@
    }

    /// The bytes of the value.
    pub fn as_bytes(&self) -> (bytes: &[u8])
        ensures
            bytes@ == self@,
    {
        self.data.as_slice()
    }
}

impl<T> ScalarWritableBuffer<T> {
    /// The memory of the buffer.
    pub closed spec fn view(&self) -> Seq<u8> {
        self.data@
    }
}

impl<T> PtrCheckedMut<T, ScalarLayout> for ScalarWritableBuffer<T> {
    open spec fn writable_memory(&self) -> Seq<u8> {
        self@
    }

    open spec fn is_writable(&self, layout: &ScalarLayout) -> bool {
        self@.len() == size_of::<T>()
    }

    fn check_mut(&self, layout: &ScalarLayout) -> (b: bool) {
        self.data.len() == core::mem::size_of::<T>()
    }

    fn ptr_checked_mut(&mut self, layout: &ScalarLayout) -> (memory: &mut [u8]) {
        self.data.as_mut_slice()
    }
}

impl<T> PtrChecked<T, ScalarLayout> for ScalarBuffer<T> {
    open spec fn memory(&self) -> Seq<u8> {
        self@
    }

    open spec fn is_readable(&self, layout: &ScalarLayout) -> bool {
        self@.len() == size_of::<T>()
    }

    fn check(&self, layout: &ScalarLayout) -> (b: bool) {
        self.data.len() == core::mem::size_of::<T>()
    }

    fn ptr_checked(&self, layout: &ScalarLayout) -> (memory: &[u8]) {
        self.data.as_slice()
    }
}

impl<T> MapLayout<T> for ScalarLayout {
    type Buffer = ScalarBuffer<T>;

    type WritableBuffer = ScalarWritableBuffer<T>;

    open spec fn buffer_len(&self) -> nat {
        size_of::<T>()
    }

    open spec fn spec_nb_values(&self) -> nat {
        1
    }

    open spec fn filled(&self, values: Seq<Seq<u8>>) -> Seq<u8> {
        values[0]
    }

    open spec fn holds_values(&self, buffer: &ScalarBuffer<T>) -> bool {
        true
    }

    fn nb_values(&self) -> (n: usize) {
        1
    }

    fn can_allocate(&self) -> (b: bool) {
        let size: usize = core::mem::size_of::<T>();
        true
    }

    fn allocate(&self, values: &[&[u8]]) -> (buffer: ScalarBuffer<T>) {
        assert(values@[0]@ == values_of(values@)[0]);
        ScalarBuffer { data: slice_to_vec(values[0]), value_type: PhantomData }
    }

    fn allocate_write(&self) -> (buffer: ScalarWritableBuffer<T>) {
        ScalarWritableBuffer {
            data: vec![0u8; core::mem::size_of::<T>()],
            value_type: PhantomData,
        }
    }

    fn transmute(&self, buffer: ScalarWritableBuffer<T>) -> (read: ScalarBuffer<T>) {
        ScalarBuffer { data: buffer.data, value_type: PhantomData }
    }
}

impl<T> PtrCheckedMut<T, PerCpuLayout> for PerCpuBuffer<T> {
    open spec fn writable_memory(&self) -> Seq<u8> {
        self.bytes()
    }

    open spec fn is_writable(&self, layout: &PerCpuLayout) -> bool {
        self.wf() && self.spec_nb_elements() == layout.spec_nb_cpus()
    }

    fn check_mut(&self, layout: &PerCpuLayout) -> (b: bool) {
        self.has_slots(layout.nb_cpus())
    }

    /// The buffer keeps the number of slots that it was made for, and
    /// counts as holding values no more and no less than before.
    fn ptr_checked_mut(&mut self, layout: &PerCpuLayout) -> (memory: &mut [u8])
        ensures
            PerCpuBuffer::<T>::spec_nb_elements(final(self)) == PerCpuBuffer::<T>::spec_nb_elements(
                old(self),
            ),
            PerCpuBuffer::<T>::spec_is_initialized(final(self))
                == PerCpuBuffer::<T>::spec_is_initialized(old(self)),
    {
        self.get_ptr_mut()
    }
}

impl<T> PtrChecked<T, PerCpuLayout> for PerCpuBuffer<T> {
    open spec fn memory(&self) -> Seq<u8> {
        self.bytes()
    }

    open spec fn is_readable(&self, layout: &PerCpuLayout) -> bool {
        self.wf() && self.spec_nb_elements() == layout.spec_nb_cpus()
    }

    fn check(&self, layout: &PerCpuLayout) -> (b: bool) {
        self.has_slots(layout.nb_cpus())
    }

    fn ptr_checked(&self, layout: &PerCpuLayout) -> (memory: &[u8]) {
        self.get_ptr()
    }
}

impl<T> MapLayout<T> for PerCpuLayout {
    type Buffer = PerCpuBuffer<T>;

    type WritableBuffer = PerCpuBuffer<T>;

    open spec fn buffer_len(&self) -> nat {
        (self.spec_nb_cpus() * spec_round_up_8(size_of::<T>())) as nat
    }

    open spec fn spec_nb_values(&self) -> nat {
        self.spec_nb_cpus() as nat
    }

    open spec fn filled(&self, values: Seq<Seq<u8>>) -> Seq<u8> {
        per_cpu_bytes(values, size_of::<T>())
    }

    open spec fn holds_values(&self, buffer: &PerCpuBuffer<T>) -> bool {
        buffer.spec_is_initialized()
    }

    fn nb_values(&self) -> (n: usize) {
        self.nb_cpus()
    }

    fn can_allocate(&self) -> (b: bool) {
        PerCpuBuffer::<T>::buffer_size(self.nb_cpus()).is_some()
    }

    /// Slot `i` of the buffer holds the `i`-th of `values`, and what follows
    /// a value in its slot is zero.
    fn allocate(&self, values: &[&[u8]]) -> (buffer: PerCpuBuffer<T>)
        ensures
            PerCpuBuffer::<T>::values(&buffer) == values_of(values@),
    {
        let mut buffer = PerCpuBuffer::from_iter(values, self.nb_cpus());
        buffer.mark_as_initialized();
        buffer
    }

    /// The buffer has one slot per possible CPU, and every slot is as long
    /// as a `T` rounded up to the next multiple of 8.
    fn allocate_write(&self) -> (buffer: PerCpuBuffer<T>)
        ensures
            PerCpuBuffer::<T>::bytes(&buffer).len() == self.spec_nb_cpus() * spec_round_up_8(
                size_of::<T>(),
            ),
            !PerCpuBuffer::<T>::spec_is_initialized(&buffer),
    {
        PerCpuBuffer::new(self.nb_cpus())
    }

    /// The values are those of the slots of the buffer, as the kernel wrote
    /// them.
    fn transmute(&self, buffer: PerCpuBuffer<T>) -> (read: PerCpuBuffer<T>)
        ensures
            PerCpuBuffer::<T>::values(&read) == PerCpuBuffer::<T>::values(&buffer),
    {
        let mut read = buffer;
        read.mark_as_initialized();
        read
    }
}

/// A per-CPU buffer that was made for another number of slots than the
/// system has possible CPUs, or whose memory is not as long as those slots,
/// is not as the layout asks: it can be handed neither to `ptr_checked` nor to
/// `ptr_checked_mut`, nor be taken for values.
pub proof fn lemma_wrong_slot_count_is_rejected<T>(buffer: PerCpuBuffer<T>, layout: PerCpuLayout)
    requires
        buffer.spec_nb_elements() != layout.spec_nb_cpus() || buffer.bytes().len()
            != layout.spec_nb_cpus() * spec_round_up_8(size_of::<T>()),
    ensures
        !PtrChecked::<T, PerCpuLayout>::is_readable(&buffer, &layout),
        !PtrCheckedMut::<T, PerCpuLayout>::is_writable(&buffer, &layout),
{
}

/// One value of a per-CPU map, as a host value.
///
/// The type holds the content and nothing else: it has the size and the
/// alignment of its content, and it is not what goes to the kernel. The
/// memory that the kernel reads and writes is a [`PerCpuBuffer`]. What the
/// type adds is the layout of the slot that such a value has there:
/// [`PerCpuValue::size`] and [`PerCpuValue::align`] give the size and the
/// alignment of a content that is aligned to 8 bytes at least, and
/// [`lemma_value_size_is_slot_size`] shows that this size is the length of
/// the kernel's slot.
#[derive(Debug, Default)]
pub struct PerCpuValue<T>(T);

/// The alignment of a per-CPU value whose content is aligned to `align`
/// bytes: 8 bytes at least.
pub open spec fn spec_value_align(align: nat) -> nat {
    if align < 8 {
        8
    } else {
        align
    }
}

/// The size of a per-CPU value whose content has `size` bytes and is aligned
/// to `align` bytes: `size`, rounded up to the next multiple of the value's
/// alignment.
pub open spec fn spec_value_size(size: nat, align: nat) -> nat {
    let value_align = spec_value_align(align);
    if size % value_align == 0 {
        size
    } else {
        (size + (value_align - size % value_align)) as nat
    }
}

/// A power of two from 8 on is a multiple of 8.
proof fn lemma_pow2_from_8(n: int)
    requires
        is_pow2(n),
        n >= 8,
    ensures
        n % 8 == 0,
{
    reveal_with_fuel(is_pow2, 4);
}

/// A content that is aligned to 8 bytes at least takes as much memory as the
/// kernel's slot for it: for every size and alignment that a type can have,
/// the size that [`spec_value_size`] gives is the size of the content rounded
/// up to the next multiple of 8.
pub proof fn lemma_value_size_is_slot_size(size: nat, align: nat)
    requires
        is_pow2(align as int),
        size % align == 0,
    ensures
        spec_value_size(size, align) == spec_round_up_8(size),
        spec_value_size(size, align) % spec_value_align(align) == 0,
{
    reveal_with_fuel(is_pow2, 2);
    lemma_round_up_8(size);
    if align >= 8 {
        lemma_pow2_from_8(align as int);
        let k = (size / align) as int;
        let m = (align / 8) as int;
        lemma_fundamental_div_mod(size as int, align as int);
        assert(size == k * (m * 8)) by (nonlinear_arith)
            requires
                size == align * k,
                align == 8 * m,
        ;
        assert(k * (m * 8) == (k * m) * 8) by (nonlinear_arith);
        lemma_mod_multiples_basic(k * m, 8);
    }
}

/// The alignment of a per-CPU value whose content is aligned to `align`
/// bytes.
pub fn value_align(align: usize) -> (r: usize)
    ensures
        r == spec_value_align(align as nat),
{
    if align < 8 {
        8
    } else {
        align
    }
}

/// The size of a per-CPU value whose content has `size` bytes and is aligned
/// to `align` bytes.
pub fn value_size(size: usize, align: usize) -> (r: usize)
    requires
        spec_value_size(size as nat, align as nat) <= usize::MAX,
    ensures
        r == spec_value_size(size as nat, align as nat),
{
    let value_align: usize = value_align(align);
    let rem: usize = size % value_align;
    if rem == 0 {
        size
    } else {
        size + (value_align - rem)
    }
}

impl<T> PerCpuValue<T> {
    /// The content.
    pub closed spec fn content(&self) -> T {
        self.0
    }

    pub fn as_ref(&self) -> (content: &T)
        ensures
            *content == self.content(),
    {
        &self.0
    }

    pub fn as_mut(&mut self) -> (content: &mut T)
        ensures
            *content == old(self).content(),
            final(self).content() == *final(content),
    {
        &mut self.0
    }

    /// The number of bytes that one per-CPU value of this type takes in
    /// memory: the length of a slot.
    pub fn size() -> (r: usize)
        ensures
            r == spec_value_size(size_of::<T>(), align_of::<T>()),
            r == spec_round_up_8(size_of::<T>()),
    {
        layout_for_type_is_valid::<T>();
        proof {
            lemma_value_size_is_slot_size(size_of::<T>(), align_of::<T>());
            lemma_round_up_8(size_of::<T>());
        }
        value_size(core::mem::size_of::<T>(), core::mem::align_of::<T>())
    }

    /// The alignment of a per-CPU value of this type.
    pub fn align() -> (r: usize)
        ensures
            r == spec_value_align(align_of::<T>()),
    {
        layout_for_type_is_valid::<T>();
        value_align(core::mem::align_of::<T>())
    }
}

impl<T> From<T> for PerCpuValue<T> {
    fn from(v: T) -> (value: PerCpuValue<T>) {
        PerCpuValue(v)
    }
}

impl<T> vstd::std_specs::convert::FromSpecImpl<T> for PerCpuValue<T> {
    open spec fn obeys_from_spec() -> bool {
        true
    }

    closed spec fn from_spec(v: T) -> PerCpuValue<T> {
        PerCpuValue(v)
    }
}

/// A per-CPU value made from a content holds that content.
pub proof fn lemma_value_from_content<T>(v: T)
    ensures
        <PerCpuValue<T> as vstd::std_specs::convert::FromSpec<T>>::from_spec(v).content() == v,
{
}

} // verus!
