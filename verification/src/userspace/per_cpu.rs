//! Buffers for the values of per-CPU maps.
//!
//! For one key a per-CPU map holds one value per possible CPU. The kernel
//! reads and writes them as one block of memory, in which each value has a
//! slot of its own; see [`crate::layout`]. A [`PerCpuBuffer`] is such a block.
use crate::layout::{
    all_of_size, lemma_round_up_8, lemma_slot_in_bounds, lemma_slot_place, lemma_slots_round_trip,
    per_cpu_byte, per_cpu_bytes, slot_offset, slot_values, spec_round_up_8, Layout,
};
use core::marker::PhantomData;
use vstd::layout::{layout_for_type_is_valid, size_of};
use vstd::prelude::*;
use vstd::slice::slice_subrange;

verus! {

/// The layout of the values of a per-CPU map: one slot per possible CPU. The
/// number of possible CPUs is a property of the system that does not change
/// while it runs; whoever asks the system for it makes the layout from it.
#[derive(Debug, Clone, Copy, PartialEq, Eq)]
pub struct PerCpuLayout {
    nb_cpus: usize,
}

impl Layout for PerCpuLayout {

}

impl PerCpuLayout {
    pub closed spec fn spec_nb_cpus(&self) -> usize {
        self.nb_cpus
    }

    /// The layout on a system with `nb_cpus` possible CPUs.
    pub fn new(nb_cpus: usize) -> (layout: PerCpuLayout)
        ensures
            layout.spec_nb_cpus() == nb_cpus,
    {
        PerCpuLayout { nb_cpus }
    }

    /// The number of slots: the number of possible CPUs.
    #[verifier::when_used_as_spec(spec_nb_cpus)]
    pub fn nb_cpus(&self) -> (nb_cpus: usize)
        ensures
            nb_cpus == self.spec_nb_cpus(),
    {
        self.nb_cpus
    }
}

/// The values that `items` holds, as sequences of bytes.
pub open spec fn values_of(items: Seq<&[u8]>) -> Seq<Seq<u8>> {
    Seq::new(items.len(), |i: int| items[i]@)
}

/// Memory that holds one value of type `T` per possible CPU, laid out as the
/// kernel lays it out. The buffer keeps the bytes; what they mean as a `T` is
/// for the caller to say.
pub struct PerCpuBuffer<T> {
    data: Vec<u8>,
    nb_elements: usize,
    output_type: PhantomData<T>,
    initialized: bool,
}

impl<T> PerCpuBuffer<T> {
    /// The memory of the buffer.
    pub closed spec fn bytes(&self) -> Seq<u8> {
        self.data@
    }

    /// The number of slots that the buffer was made for.
    pub closed spec fn spec_nb_elements(&self) -> usize {
        self.nb_elements
    }

    /// Whether the buffer has been declared to hold values.
    pub closed spec fn spec_is_initialized(&self) -> bool {
        self.initialized
    }

    /// The length of one slot.
    pub open spec fn spec_element_size() -> nat {
        spec_round_up_8(size_of::<T>())
    }

    /// The memory is as long as the slots that the buffer was made for.
    pub open spec fn wf(&self) -> bool {
        self.bytes().len() == self.spec_nb_elements() * Self::spec_element_size()
    }

    /// The values in the slots of the buffer, in the order of the slots.
    pub open spec fn values(&self) -> Seq<Seq<u8>> {
        slot_values(self.bytes(), self.spec_nb_elements() as nat, size_of::<T>())
    }

    /// The length of one slot: the size of a `T`, rounded up to the next
    /// multiple of 8.
    pub fn element_size() -> (size: usize)
        ensures
            size == Self::spec_element_size(),
            size_of::<T>() <= size < size_of::<T>() + 8,
            size % 8 == 0,
    {
        layout_for_type_is_valid::<T>();
        proof {
            lemma_round_up_8(size_of::<T>());
        }
        let size: usize = core::mem::size_of::<T>();
        let rem: usize = size % 8;
        if rem == 0 {
            size
        } else {
            size + 8 - rem
        }
    }

    /// The length of the memory for `nb_cpus` slots, where the machine can
    /// address that much.
    pub fn buffer_size(nb_cpus: usize) -> (size: Option<usize>)
        ensures
            size is Some <==> nb_cpus * Self::spec_element_size() <= usize::MAX,
            size matches Some(n) ==> n == nb_cpus * Self::spec_element_size(),
    {
        nb_cpus.checked_mul(Self::element_size())
    }

    /// A buffer for `nb_cpus` values, all bytes zero, for the kernel to write
    /// into. It does not count as holding values yet.
    pub fn new(nb_cpus: usize) -> (buffer: PerCpuBuffer<T>)
        requires
            nb_cpus * Self::spec_element_size() <= usize::MAX,
        ensures
            buffer.wf(),
            buffer.spec_nb_elements() == nb_cpus,
            !buffer.spec_is_initialized(),
            forall|p: int| 0 <= p < buffer.bytes().len() ==> buffer.bytes()[p] == 0,
    {
        let nb_elements: usize = nb_cpus;
        let buffer_size: usize = nb_elements * Self::element_size();
        let data: Vec<u8> = vec![0u8; buffer_size];
        PerCpuBuffer { data, nb_elements, output_type: PhantomData, initialized: false }
    }

    /// Declares that the buffer holds values: that something, as a rule the
    /// kernel in a lookup that succeeded, has written a `T` into every slot.
    /// The bytes stay as they are.
    pub fn mark_as_initialized(&mut self)
        ensures
            final(self).spec_is_initialized(),
            final(self).bytes() == old(self).bytes(),
            final(self).spec_nb_elements() == old(self).spec_nb_elements(),
    {
        self.initialized = true;
    }

    pub fn nb_elements(&self) -> (n: usize)
        ensures
            n == self.spec_nb_elements(),
    {
        self.nb_elements
    }

    pub fn is_initialized(&self) -> (b: bool)
        ensures
            b == self.spec_is_initialized(),
    {
        self.initialized
    }

    /// Whether the memory is as long as `nb_cpus` slots and the buffer was
    /// made for that many.
    pub fn has_slots(&self, nb_cpus: usize) -> (b: bool)
        ensures
            b == (self.wf() && self.spec_nb_elements() == nb_cpus),
    {
        if self.nb_elements != nb_cpus {
            return false;
        }
        let len: usize = self.data.len();
        match Self::buffer_size(nb_cpus) {
            Some(size) => len == size,
            None => false,
        }
    }

    /// The memory of the buffer, for the kernel to read.
    pub fn get_ptr(&self) -> (memory: &[u8])
        ensures
            memory@ == self.bytes(),
    {
        self.data.as_slice()
    }

    /// The memory of the buffer, for the kernel to write into. Whatever is
    /// written there is what the buffer holds afterwards.
    pub fn get_ptr_mut(&mut self) -> (memory: &mut [u8])
        ensures
            memory@ == old(self).bytes(),
            final(self).bytes() == final(memory)@,
            final(self).spec_nb_elements() == old(self).spec_nb_elements(),
            final(self).spec_is_initialized() == old(self).spec_is_initialized(),
    {
        self.data.as_mut_slice()
    }

    /// A buffer that holds `items`, one per slot in their order, for the
    /// kernel to read. What follows a value in its slot is zero. There is one
    /// item per possible CPU, and each is a `T` as bytes. Like a new buffer it
    /// does not count as holding values that were read from the kernel.
    pub fn from_iter(items: &[&[u8]], nb_cpus: usize) -> (buffer: PerCpuBuffer<T>)
        requires
            items@.len() == nb_cpus,
            all_of_size(values_of(items@), size_of::<T>()),
            nb_cpus * Self::spec_element_size() <= usize::MAX,
        ensures
            buffer.wf(),
            buffer.spec_nb_elements() == nb_cpus,
            !buffer.spec_is_initialized(),
            buffer.bytes() == per_cpu_bytes(values_of(items@), size_of::<T>()),
            buffer.values() == values_of(items@),
    {
        let ghost values = values_of(items@);
        let ghost value_size = size_of::<T>();
        let stride: usize = Self::element_size();
        let size: usize = core::mem::size_of::<T>();
        let total: usize = nb_cpus * stride;
        let mut data: Vec<u8> = Vec::with_capacity(total);
        let mut added: usize = 0;
        while added < nb_cpus
            invariant
                added <= nb_cpus,
                items@.len() == nb_cpus,
                values == values_of(items@),
                value_size == size_of::<T>(),
                all_of_size(values, value_size),
                stride == spec_round_up_8(value_size),
                size == value_size,
                size <= stride,
                nb_cpus * stride <= usize::MAX,
                data@.len() == added * stride,
                forall|p: int| 0 <= p < data@.len() ==> data@[p] == per_cpu_byte(values, value_size, p),
            decreases nb_cpus - added,
        {
            let item: &[u8] = items[added];
            assert(item@ == values[added as int]);
            proof {
                lemma_slot_in_bounds(added as int, nb_cpus as int, value_size);
            }
            let mut j: usize = 0;
            while j < stride
                invariant
                    j <= stride,
                    added < nb_cpus,
                    item@ == values[added as int],
                    item@.len() == size,
                    size == value_size,
                    size <= stride,
                    stride == spec_round_up_8(value_size),
                    (added + 1) * stride <= usize::MAX,
                    data@.len() == added * stride + j,
                    forall|p: int| 0 <= p < data@.len() ==> data@[p] == per_cpu_byte(values, value_size, p),
                decreases stride - j,
            {
                proof {
                    lemma_slot_place(added as int, j as int, stride as int);
                }
                let byte: u8 = if j < size {
                    item[j]
                } else {
                    0
                };
                data.push(byte);
                j += 1;
            }
            assert((added + 1) * stride == added * stride + stride) by (nonlinear_arith);
            added += 1;
        }
        assert(data@ =~= per_cpu_bytes(values, value_size));
        let buffer = PerCpuBuffer { data, nb_elements: nb_cpus, output_type: PhantomData, initialized: false };
        proof {
            lemma_slots_round_trip(values, value_size);
        }
        buffer
    }

    /// Starts a walk over the values of a buffer that holds values.
    pub fn into_iter<'a>(&'a self) -> (iter: PerCpuIterator<'a, T>)
        requires
            self.spec_is_initialized(),
            self.wf(),
            size_of::<T>() > 0,
        ensures
            iter.wf(),
            iter.buffer() == self,
            iter.position() == 0,
    {
        PerCpuIterator::new(self)
    }
}

/// A walk over the values of a [`PerCpuBuffer`], slot by slot.
pub struct PerCpuIterator<'a, T> {
    buffer: &'a PerCpuBuffer<T>,
    next_item: usize,
    size: usize,
}

impl<'a, T> PerCpuIterator<'a, T> {
    /// The buffer that is walked.
    pub closed spec fn buffer(&self) -> &'a PerCpuBuffer<T> {
        self.buffer
    }

    /// The number of values that have come out.
    pub closed spec fn position(&self) -> nat {
        self.next_item as nat
    }

    /// The walk is over a buffer whose memory is as long as its slots, has as
    /// many steps as the buffer has slots, and is not past the last slot.
    pub closed spec fn wf(&self) -> bool {
        &&& self.buffer.wf()
        &&& self.size == self.buffer.spec_nb_elements()
        &&& self.next_item <= self.size
        &&& size_of::<T>() > 0
    }

    /// A walk that starts at the first slot of `buffer`. The number of slots
    /// is the length of the memory divided by the length of a slot; a type
    /// without bytes has no slots to divide by.
    pub fn new(buffer: &'a PerCpuBuffer<T>) -> (iter: PerCpuIterator<'a, T>)
        requires
            buffer.wf(),
            size_of::<T>() > 0,
        ensures
            iter.wf(),
            iter.buffer() == buffer,
            iter.position() == 0,
    {
        let stride: usize = PerCpuBuffer::<T>::element_size();
        let size: usize = buffer.data.len() / stride;
        proof {
            let n = buffer.spec_nb_elements() as int;
            assert(n * (stride as int) == (stride as int) * n) by (nonlinear_arith);
            vstd::arithmetic::div_mod::lemma_div_multiples_vanish(n, stride as int);
        }
        PerCpuIterator { buffer, next_item: 0, size }
    }

    /// The value in the next slot, as bytes; `None` after the last slot.
    pub fn next(&mut self) -> (value: Option<&'a [u8]>)
        requires
            old(self).wf(),
        ensures
            final(self).wf(),
            final(self).buffer() == old(self).buffer(),
            old(self).position() < old(self).buffer().spec_nb_elements() ==> {
                &&& value matches Some(bytes)
                &&& bytes@ == old(self).buffer().values()[old(self).position() as int]
                &&& final(self).position() == old(self).position() + 1
            },
            old(self).position() >= old(self).buffer().spec_nb_elements() ==> {
                &&& value is None
                &&& final(self).position() == old(self).position()
            },
    {
        if self.next_item >= self.size {
            None
        } else {
            proof {
                lemma_slot_in_bounds(self.next_item as int, self.size as int, size_of::<T>());
            }
            let stride: usize = PerCpuBuffer::<T>::element_size();
            let buffer: &'a PerCpuBuffer<T> = self.buffer;
            assert(stride * self.next_item == slot_offset(self.next_item as int, size_of::<T>()))
                by (nonlinear_arith)
                requires
                    stride == spec_round_up_8(size_of::<T>()),
            ;
            let len: usize = buffer.data.len();
            assert(len == self.size * spec_round_up_8(size_of::<T>()));
            let offset: usize = stride * self.next_item;
            self.next_item += 1;
            Some(slice_subrange(buffer.data.as_slice(), offset, offset + core::mem::size_of::<T>()))
        }
    }
}

} // verus!
