//! How the kernel lays out the values of a map in memory.
//!
//! Most maps hold one value per key, laid out as the host lays it out. A
//! per-CPU map holds one value per possible CPU for each key. The kernel does
//! not pack those values: each has a slot of its own, and a slot is as long as
//! the value, rounded up to the next multiple of 8.
use vstd::arithmetic::div_mod::lemma_fundamental_div_mod_converse;
use vstd::prelude::*;

verus! {

/// Marks the types that name a layout.
pub trait Layout {

}

/// The layout of a single value: the bytes of the value and nothing else.
#[derive(Debug, Clone, Copy, PartialEq, Eq)]
pub struct ScalarLayout;

impl Layout for ScalarLayout {

}

/// `x` rounded up to the next multiple of 8.
pub open spec fn spec_round_up_8(x: nat) -> nat {
    if x % 8 == 0 {
        x
    } else {
        (x + (8 - x % 8)) as nat
    }
}

/// `x` rounded up to the next multiple of 8: the length of the slot of a
/// value of `x` bytes in a per-CPU map.
pub fn round_up_8(x: usize) -> (r: usize)
    requires
        spec_round_up_8(x as nat) <= usize::MAX,
    ensures
        r == spec_round_up_8(x as nat),
{
    let rem: usize = x % 8;
    if rem == 0 {
        x
    } else {
        x + (8 - rem)
    }
}

pub open spec fn is_multiple_of_8(m: nat) -> bool {
    m % 8 == 0
}

/// `r` is the least multiple of 8 that is not below `x`.
pub open spec fn is_least_multiple_of_8_from(x: nat, r: nat) -> bool {
    &&& is_multiple_of_8(r)
    &&& x <= r
    &&& forall|m: nat| #[trigger] is_multiple_of_8(m) && x <= m ==> r <= m
}

/// Rounding up to a multiple of 8 gives a multiple of 8, adds less than 8,
/// gives the least such multiple, and leaves a multiple of 8 as it is.
pub proof fn lemma_round_up_8(x: nat)
    ensures
        spec_round_up_8(x) % 8 == 0,
        x <= spec_round_up_8(x) < x + 8,
        is_least_multiple_of_8_from(x, spec_round_up_8(x)),
        x % 8 == 0 ==> spec_round_up_8(x) == x,
        x % 8 != 0 ==> spec_round_up_8(x) == x + (8 - x % 8),
{
    let r = spec_round_up_8(x);
    assert forall|m: nat| #[trigger] is_multiple_of_8(m) && x <= m implies r <= m by {
        if m < r {
            assert(m / 8 == r / 8);
        }
    }
}

/// Where slot `i` starts in the memory of a per-CPU value of `value_size`
/// bytes.
pub open spec fn slot_offset(i: int, value_size: nat) -> int {
    i * spec_round_up_8(value_size)
}

/// The value in slot `i` of `data`: the first `value_size` bytes of the slot.
pub open spec fn slot_value(data: Seq<u8>, i: int, value_size: nat) -> Seq<u8> {
    data.subrange(slot_offset(i, value_size), slot_offset(i, value_size) + value_size)
}

/// The values in the first `n` slots of `data`, in the order of the slots.
pub open spec fn slot_values(data: Seq<u8>, n: nat, value_size: nat) -> Seq<Seq<u8>> {
    Seq::new(n, |i: int| slot_value(data, i, value_size))
}

/// The byte at place `p` of the memory that holds `values` in slots: byte
/// `p` lies in slot `p / stride` at the offset `p % stride`, and what follows
/// the value in a slot is zero.
pub open spec fn per_cpu_byte(values: Seq<Seq<u8>>, value_size: nat, p: int) -> u8 {
    let stride = spec_round_up_8(value_size) as int;
    if p % stride < value_size {
        values[p / stride][p % stride]
    } else {
        0u8
    }
}

/// The memory that holds `values`, each of `value_size` bytes, in slots: one
/// slot per value, in their order.
pub open spec fn per_cpu_bytes(values: Seq<Seq<u8>>, value_size: nat) -> Seq<u8> {
    Seq::new(
        values.len() * spec_round_up_8(value_size),
        |p: int| per_cpu_byte(values, value_size, p),
    )
}

/// Every value that `values` holds is `value_size` bytes long.
pub open spec fn all_of_size(values: Seq<Seq<u8>>, value_size: nat) -> bool {
    forall|i: int| 0 <= i < values.len() ==> (#[trigger] values[i]).len() == value_size
}

/// The place `i * stride + j` lies in slot `i` at the offset `j`.
pub proof fn lemma_slot_place(i: int, j: int, stride: int)
    requires
        0 <= i,
        0 <= j < stride,
    ensures
        (i * stride + j) / stride == i,
        (i * stride + j) % stride == j,
{
    lemma_fundamental_div_mod_converse(i * stride + j, stride, i, j);
}

/// Slot `i` of `n` slots lies inside the memory of the `n` slots.
pub proof fn lemma_slot_in_bounds(i: int, n: int, value_size: nat)
    requires
        0 <= i < n,
    ensures
        0 <= slot_offset(i, value_size),
        slot_offset(i, value_size) + value_size <= slot_offset(i, value_size) + spec_round_up_8(
            value_size,
        ) <= n * spec_round_up_8(value_size),
        slot_offset(i + 1, value_size) == slot_offset(i, value_size) + spec_round_up_8(
            value_size,
        ),
{
    let stride = spec_round_up_8(value_size) as int;
    lemma_round_up_8(value_size);
    assert(0 <= i * stride) by (nonlinear_arith)
        requires
            0 <= i,
            0 <= stride,
    ;
    assert((i + 1) * stride == i * stride + stride) by (nonlinear_arith);
    assert((i + 1) * stride <= n * stride) by (nonlinear_arith)
        requires
            i + 1 <= n,
            0 <= stride,
    ;
}

/// Values that are written into slots are read back from the slots as they
/// were written, in the same order.
pub proof fn lemma_slots_round_trip(values: Seq<Seq<u8>>, value_size: nat)
    requires
        all_of_size(values, value_size),
    ensures
        slot_values(per_cpu_bytes(values, value_size), values.len(), value_size) == values,
        per_cpu_bytes(values, value_size).len() == values.len() * spec_round_up_8(value_size),
{
    let data = per_cpu_bytes(values, value_size);
    let stride = spec_round_up_8(value_size) as int;
    let read = slot_values(data, values.len(), value_size);
    lemma_round_up_8(value_size);
    assert forall|i: int| 0 <= i < values.len() implies read[i] == values[i] by {
        lemma_slot_in_bounds(i, values.len() as int, value_size);
        let got = slot_value(data, i, value_size);
        assert(got.len() == value_size);
        assert forall|j: int| 0 <= j < value_size implies got[j] == values[i][j] by {
            lemma_slot_place(i, j, stride);
            assert(got[j] == data[i * stride + j]);
        }
        assert(got =~= values[i]);
    }
    assert(read =~= values);
}

} // verus!
