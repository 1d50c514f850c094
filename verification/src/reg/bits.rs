//! Bit-level operations on 32-bit register values.
//!
//! Every register of the Cortex-M core is a 32-bit word. A field is either a
//! single bit at some `offset`, or `width` consecutive bits starting at
//! `offset`. A field that covers the whole word (`width == 32`) reads and
//! writes the word itself.

use vstd::arithmetic::power2::pow2;
use vstd::prelude::*;

verus! {

/// The mask of the `width` lowest bits, for `width < 32`.
pub open spec fn low_mask(width: u32) -> u32 {
    ((1u32 << width) - 1) as u32
}

/// Whether bit `offset` of `v` is set.
pub open spec fn bit_is_set(v: u32, offset: u32) -> bool {
    v & (1u32 << offset) != 0
}

/// `v` with bit `offset` set.
pub open spec fn with_bit_set(v: u32, offset: u32) -> u32 {
    v | (1u32 << offset)
}

/// `v` with bit `offset` cleared.
pub open spec fn with_bit_cleared(v: u32, offset: u32) -> u32 {
    v & !(1u32 << offset)
}

/// `v` with bit `offset` inverted.
pub open spec fn with_bit_toggled(v: u32, offset: u32) -> u32 {
    v ^ (1u32 << offset)
}

/// `v` with bit `offset` set to `value`.
pub open spec fn with_bit(v: u32, offset: u32, value: bool) -> u32 {
    if value { with_bit_set(v, offset) } else { with_bit_cleared(v, offset) }
}

/// The `width` bits of `v` that start at `offset`.
pub open spec fn field_of(v: u32, offset: u32, width: u32) -> u32 {
    if width == 32 { v } else { (v >> offset) & low_mask(width) }
}

/// `v` with the `width` bits at `offset` replaced by the low `width` bits of
/// `bits`.
pub open spec fn with_field(v: u32, offset: u32, width: u32, bits: u32) -> u32 {
    if width == 32 {
        bits
    } else {
        (v & !(low_mask(width) << offset)) | ((bits & low_mask(width)) << offset)
    }
}

/// A field of `width` bits at `offset` fits in a 32-bit word.
pub open spec fn field_fits(offset: u32, width: u32) -> bool {
    1 <= width && offset + width <= 32
}

/// Returns `true` if bit `offset` of `v` is set.
pub fn read_bit(v: u32, offset: u32) -> (r: bool)
    requires
        offset < 32,
    ensures
        r == bit_is_set(v, offset),
{
    v & (1u32 << offset) != 0
}

/// Returns `v` with bit `offset` set.
pub fn set_bit(v: u32, offset: u32) -> (r: u32)
    requires
        offset < 32,
    ensures
        r == with_bit_set(v, offset),
{
    v | (1u32 << offset)
}

/// Returns `v` with bit `offset` cleared.
pub fn clear_bit(v: u32, offset: u32) -> (r: u32)
    requires
        offset < 32,
    ensures
        r == with_bit_cleared(v, offset),
{
    v & !(1u32 << offset)
}

/// Returns `v` with bit `offset` inverted.
pub fn toggle_bit(v: u32, offset: u32) -> (r: u32)
    requires
        offset < 32,
    ensures
        r == with_bit_toggled(v, offset),
{
    v ^ (1u32 << offset)
}

/// Returns `v` with bit `offset` set to `value`.
pub fn write_bit(v: u32, offset: u32, value: bool) -> (r: u32)
    requires
        offset < 32,
    ensures
        r == with_bit(v, offset, value),
{
    if value {
        set_bit(v, offset)
    } else {
        clear_bit(v, offset)
    }
}

/// Returns the `width` bits of `v` at `offset`.
pub fn read_bits(v: u32, offset: u32, width: u32) -> (r: u32)
    requires
        field_fits(offset, width),
    ensures
        r == field_of(v, offset, width),
        r as int == (v >> offset) as int % (pow2(width as nat) as int),
{
    proof {
        lemma_field_is_mod_pow2(v, offset, width, 0);
    }
    if width == 32 {
        v
    } else {
        proof {
            lemma_low_mask_pos(width);
        }
        (v >> offset) & ((1u32 << width) - 1)
    }
}

/// Returns `v` with the `width` bits at `offset` replaced by the low `width`
/// bits of `bits`.
pub fn write_bits(v: u32, offset: u32, width: u32, bits: u32) -> (r: u32)
    requires
        field_fits(offset, width),
    ensures
        r == with_field(v, offset, width, bits),
        (r >> offset) as int % (pow2(width as nat) as int) == bits as int % (pow2(
            width as nat,
        ) as int),
{
    proof {
        lemma_field_is_mod_pow2(v, offset, width, bits);
        lemma_field_is_mod_pow2(with_field(v, offset, width, bits), offset, width, 0);
    }
    if width == 32 {
        bits
    } else {
        proof {
            lemma_low_mask_pos(width);
        }
        let mask: u32 = (1u32 << width) - 1;
        (v & !(mask << offset)) | ((bits & mask) << offset)
    }
}

/// The bit at `width` is not zero, so the mask below it can be computed
/// without wrapping.
proof fn lemma_low_mask_pos(width: u32)
    requires
        width < 32,
    ensures
        1u32 << width >= 1,
{
    assert(1u32 << width >= 1) by (bit_vector)
        requires
            width < 32,
    ;
}

/// Reading a bit after setting, clearing or toggling it gives the written
/// state; every other bit keeps its state.
pub proof fn lemma_bit_ops(v: u32, offset: u32, other: u32)
    requires
        offset < 32,
        other < 32,
    ensures
        bit_is_set(with_bit_set(v, offset), offset),
        !bit_is_set(with_bit_cleared(v, offset), offset),
        bit_is_set(with_bit_toggled(v, offset), offset) == !bit_is_set(v, offset),
        other != offset ==> bit_is_set(with_bit_set(v, offset), other) == bit_is_set(v, other),
        other != offset ==> bit_is_set(with_bit_cleared(v, offset), other) == bit_is_set(
            v,
            other,
        ),
        other != offset ==> bit_is_set(with_bit_toggled(v, offset), other) == bit_is_set(
            v,
            other,
        ),
{
    assert({
        &&& (v | (1u32 << offset)) & (1u32 << offset) != 0
        &&& (v & !(1u32 << offset)) & (1u32 << offset) == 0
        &&& ((v ^ (1u32 << offset)) & (1u32 << offset) != 0) == !(v & (1u32 << offset) != 0)
        &&& other != offset ==> (((v | (1u32 << offset)) & (1u32 << other) != 0) == (v & (1u32
            << other) != 0))
        &&& other != offset ==> (((v & !(1u32 << offset)) & (1u32 << other) != 0) == (v & (1u32
            << other) != 0))
        &&& other != offset ==> (((v ^ (1u32 << offset)) & (1u32 << other) != 0) == (v & (1u32
            << other) != 0))
    }) by (bit_vector)
        requires
            offset < 32,
            other < 32,
    ;
}

/// Reading a field after writing it gives the low `width` bits of what was
/// written.
pub proof fn lemma_field_read_write(v: u32, offset: u32, width: u32, bits: u32)
    requires
        field_fits(offset, width),
    ensures
        field_of(with_field(v, offset, width, bits), offset, width) == if width == 32 {
            bits
        } else {
            bits & low_mask(width)
        },
{
    if width != 32 {
        assert((((v & !(low_mask(width) << offset)) | ((bits & low_mask(width)) << offset))
            >> offset) & low_mask(width) == bits & low_mask(width)) by (bit_vector)
            requires
                1 <= width,
                width < 32,
                offset + width <= 32,
        ;
    }
}

/// A field of `width` bits holds a number modulo 2^width: its mask is
/// 2^width - 1 (all `width` low bits, whatever the width), reading it gives
/// the value shifted down by `offset` modulo 2^width, and reading it back
/// after a write gives what was written modulo 2^width.
pub proof fn lemma_field_is_mod_pow2(v: u32, offset: u32, width: u32, bits: u32)
    requires
        field_fits(offset, width),
    ensures
        width < 32 ==> low_mask(width) as int == pow2(width as nat) - 1,
        field_of(v, offset, width) as int == (v >> offset) as int % (pow2(width as nat) as int),
        field_of(with_field(v, offset, width, bits), offset, width) as int == bits as int % (pow2(
            width as nat,
        ) as int),
{
    lemma_field_read_write(v, offset, width, bits);
    if width == 32 {
        vstd::arithmetic::power2::lemma2_to64();
        assert(v >> 0u32 == v) by (bit_vector);
    } else {
        vstd::bits::lemma_u32_pow2_no_overflow(width as nat);
        vstd::bits::lemma_u32_shl_is_mul(1u32, width);
        lemma_low_mask_pos(width);
        assert(low_mask(width) as int == pow2(width as nat) - 1);
        assert(vstd::bits::low_bits_mask(width as nat) as u32 == low_mask(width));
        vstd::bits::lemma_u32_low_bits_mask_is_mod(v >> offset, width as nat);
        vstd::bits::lemma_u32_low_bits_mask_is_mod(bits, width as nat);
    }
}

/// Writing a field keeps every bit outside of it.
pub proof fn lemma_field_write_frame(v: u32, offset: u32, width: u32, bits: u32, other: u32)
    requires
        field_fits(offset, width),
        other < 32,
        other < offset || other >= offset + width,
    ensures
        bit_is_set(with_field(v, offset, width, bits), other) == bit_is_set(v, other),
{
    assert(((((v & !(low_mask(width) << offset)) | ((bits & low_mask(width)) << offset)) & (1u32
        << other)) != 0) == ((v & (1u32 << other)) != 0)) by (bit_vector)
        requires
            1 <= width,
            width < 32,
            offset + width <= 32,
            other < 32,
            other < offset || other >= offset + width,
    ;
}

/// Reading a single bit is reading a one-bit field.
pub proof fn lemma_bit_is_field(v: u32, offset: u32)
    requires
        offset < 32,
    ensures
        bit_is_set(v, offset) == (field_of(v, offset, 1) == 1),
        with_bit(v, offset, true) == with_field(v, offset, 1, 1),
        with_bit(v, offset, false) == with_field(v, offset, 1, 0),
{
    assert({
        &&& (v & (1u32 << offset) != 0) == ((v >> offset) & low_mask(1u32) == 1)
        &&& v | (1u32 << offset) == (v & !(low_mask(1u32) << offset)) | ((1u32 & low_mask(1u32))
            << offset)
        &&& v & !(1u32 << offset) == (v & !(low_mask(1u32) << offset)) | ((0u32 & low_mask(1u32))
            << offset)
    }) by (bit_vector)
        requires
            offset < 32,
    ;
}

} // verus!
