//! Processor management values.

use vstd::prelude::*;

verus! {

/// Coprocessor Access Control Register.
pub const FPU_CPACR: usize = 0xE000_ED88;

/// Returns the value written to `CPACR` to enable the floating-point unit:
/// `CP10` and `CP11` (bits 20 to 23) set to full access (`0b11` each), or to
/// privileged access only (`0b01` each).
pub fn fpu_cpacr_value(full_access: bool) -> (r: u32)
    ensures
        r == if full_access { 0x00F0_0000u32 } else { 0x0050_0000u32 },
{
    let access: u32 = if full_access { 0xF } else { 0x5 };
    assert((0xFu32 << 20u32) == 0x00F0_0000u32 && (0x5u32 << 20u32) == 0x0050_0000u32)
        by (bit_vector);
    access << 20
}

/// The number of words the memory initialization loops store in
/// `[base, end)`: one word at a time while the pointer is below `end`.
pub open spec fn spec_mem_init_words(base: int, end: int) -> int {
    if base < end { (end - base + 3) / 4 } else { 0 }
}

/// Returns the number of words stored when the memory from `base` to `end`
/// is initialized (copied from the load region, or zeroed): a word is
/// stored and the pointer advanced by four while it is below `end`.
pub fn mem_init_words(base: usize, end: usize) -> (r: usize)
    ensures
        r == spec_mem_init_words(base as int, end as int),
        base < end ==> base + 4 * r >= end && base + 4 * (r - 1) < end,
{
    if base < end {
        let span = end - base;
        span / 4 + if span % 4 == 0 { 0 } else { 1 }
    } else {
        0
    }
}

} // verus!
