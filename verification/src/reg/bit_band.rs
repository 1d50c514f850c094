//! The peripheral bit-band region.
//!
//! Cortex-M3 and Cortex-M4 map every bit of the first megabyte of the
//! peripheral region to a whole word of the bit-band alias region, so that a
//! single bit can be read or written with one word access.

use vstd::prelude::*;

verus! {

/// The peripheral bit-band alias start.
pub const BIT_BAND_BASE: usize = 0x4200_0000;

/// The peripheral bit-band region width.
pub const BIT_BAND_WIDTH: usize = 5;

/// The size in bytes of the memory covered by the bit-band region.
pub open spec fn bit_band_span() -> int {
    0x10_0000
}

/// The start of the peripheral memory covered by the bit-band region.
pub open spec fn peripheral_base() -> int {
    0x4000_0000
}

/// The alias word of bit `offset` of the register at `address`: bit
/// `offset % 8` of the byte at `address + offset / 8`, taken modulo the span
/// of the region, each byte owning eight consecutive words.
pub open spec fn bit_band_alias(address: int, offset: int) -> int {
    BIT_BAND_BASE + ((address + offset / 8) % bit_band_span()) * 32 + (offset % 8) * 4
}

/// A register located in the peripheral bit-band region.
pub trait RegBitBand {
    /// The address of the register.
    spec fn spec_address(&self) -> int;

    /// Returns the address of the register.
    fn address(&self) -> (r: usize)
        ensures
            r as int == self.spec_address(),
    ;
}

/// Readable single-bit field of a readable register located in the
/// peripheral bit-band region.
pub trait RRRegFieldBitBand {
    /// The alias address of this bit.
    spec fn spec_bit_band_ptr(&self) -> int;

    /// Returns the bit-band alias address of this field, the word to read the
    /// bit from.
    fn to_bit_band_ptr(&self) -> (r: usize)
        ensures
            r as int == self.spec_bit_band_ptr(),
    ;
}

/// Writable single-bit field of a writable register located in the
/// peripheral bit-band region.
pub trait WWRegFieldBitBand: WWRegFieldBitBandMarker {
    /// The alias address of this bit.
    spec fn spec_bit_band_mut_ptr(&self) -> int;

    /// Returns the bit-band alias address of this field, the word to write
    /// `1` to set the bit or `0` to clear it.
    fn to_bit_band_mut_ptr(&self) -> (r: usize)
        ensures
            r as int == self.spec_bit_band_mut_ptr(),
    ;
}

/// A single-bit field that may be written through the bit-band alias: the
/// alias write changes no other bit of the register.
pub trait WWRegFieldBitBandMarker {}

/// Returns the bit-band alias address of bit `offset` of the register at
/// `address`.
pub fn bit_band_addr(address: usize, offset: usize) -> (r: usize)
    requires
        address + offset / 8 <= usize::MAX,
    ensures
        r as int == bit_band_alias(address as int, offset as int),
{
    assert({
        &&& offset >> 3usize == offset / 8
        &&& 5usize << 2usize == 20
        &&& (1usize << 20usize) - 1 == 0xF_FFFF
        &&& offset & 7usize == offset % 8
        &&& (offset & 7usize) << 2usize == (offset & 7usize) * 4
    }) by (bit_vector);
    let byte: usize = address + (offset >> 3);
    let mask: usize = (0b1usize << (BIT_BAND_WIDTH << 2)) - 1;
    let bit: usize = offset & (8 - 1);
    assert({
        &&& byte & 0xF_FFFFusize == byte % 0x10_0000
        &&& (byte & 0xF_FFFFusize) << 5usize == (byte & 0xF_FFFFusize) * 32
        &&& (byte & 0xF_FFFFusize) * 32 <= 0x1FF_FFE0
    }) by (bit_vector);
    BIT_BAND_BASE + ((byte & mask) << BIT_BAND_WIDTH) + (bit << 2)
}

/// Every alias address lies in the alias region
/// `[0x4200_0000, 0x4400_0000)` and is word-aligned.
pub proof fn lemma_bit_band_alias_range(address: int, offset: int)
    requires
        address >= 0,
        offset >= 0,
    ensures
        0x4200_0000 <= bit_band_alias(address, offset) < 0x4400_0000,
        bit_band_alias(address, offset) % 4 == 0,
{
    let b = (address + offset / 8) % bit_band_span();
    let o = offset % 8;
    assert(0 <= b < 0x10_0000);
    assert(0 <= o < 8);
    assert(bit_band_alias(address, offset) == 0x4200_0000 + b * 32 + o * 4);
    assert((0x4200_0000 + b * 32 + o * 4) % 4 == 0) by {
        assert(0x4200_0000 + b * 32 + o * 4 == 4 * (0x1080_0000 + b * 8 + o));
    }
}

/// The alias of a bit only depends on the byte that holds it and on its
/// position in that byte.
pub proof fn lemma_bit_band_alias_byte(address: int, offset: int)
    requires
        address >= 0,
        offset >= 0,
    ensures
        bit_band_alias(address, offset) == bit_band_alias(address + offset / 8, offset % 8),
{
}

/// Distinct bits of the peripheral memory covered by the region have
/// distinct alias words.
pub proof fn lemma_bit_band_alias_injective(address1: int, bit1: int, address2: int, bit2: int)
    requires
        peripheral_base() <= address1 < peripheral_base() + bit_band_span(),
        peripheral_base() <= address2 < peripheral_base() + bit_band_span(),
        0 <= bit1 < 8,
        0 <= bit2 < 8,
        bit_band_alias(address1, bit1) == bit_band_alias(address2, bit2),
    ensures
        address1 == address2,
        bit1 == bit2,
{
    assert(bit1 / 8 == 0);
    assert(bit2 / 8 == 0);
    assert(bit1 % 8 == bit1);
    assert(bit2 % 8 == bit2);
    let m1 = address1 % bit_band_span();
    let m2 = address2 % bit_band_span();
    assert(address1 == peripheral_base() + m1) by {
        assert(address1 - peripheral_base() == m1 + (address1 / bit_band_span() - 0x400) * 0x10_0000);
    }
    assert(address2 == peripheral_base() + m2) by {
        assert(address2 - peripheral_base() == m2 + (address2 / bit_band_span() - 0x400) * 0x10_0000);
    }
    assert(m1 * 32 + bit1 * 4 == m2 * 32 + bit2 * 4);
    assert(m1 == m2);
}

} // verus!
