//! System control block registers.

use crate::reg::bits::{bit_is_set, field_of, with_bit, with_bit_set, with_field};
use crate::reg::bits::{read_bit, set_bit, write_bit, write_bits};
use vstd::prelude::*;

verus! {

/// The address of the system control register.
pub const SCB_SCR: usize = 0xE000_ED10;

/// The address of the application interrupt and reset control register.
pub const SCB_AIRCR: usize = 0xE000_ED0C;

/// The address of the configuration and control register.
pub const SCB_CCR: usize = 0xE000_ED14;

/// The reset value of the application interrupt and reset control register.
pub const AIRCR_RESET: u32 = 0xFA05_0000;

/// The reset value of the configuration and control register.
pub const CCR_RESET: u32 = 0x0000_0200;

/// The key that must be written to `AIRCR.VECTKEY` for a write to take
/// effect.
pub const AIRCR_VECTKEY: u32 = 0x05FA;

/// A value of the system control register.
#[derive(Debug, Clone, Copy, PartialEq, Eq, Structural)]
pub struct ScrVal(pub u32);

impl ScrVal {
    /// Send Event on Pending bit.
    pub fn seveonpend(self) -> (r: bool)
        ensures
            r == bit_is_set(self.0, 4),
    {
        read_bit(self.0, 4)
    }

    /// Send Event on Pending bit.
    pub fn set_seveonpend(self, value: bool) -> (r: Self)
        ensures
            r.0 == with_bit(self.0, 4, value),
    {
        ScrVal(write_bit(self.0, 4, value))
    }

    /// Controls whether the processor uses sleep or deep sleep as its low
    /// power mode.
    pub fn sleepdeep(self) -> (r: bool)
        ensures
            r == bit_is_set(self.0, 2),
    {
        read_bit(self.0, 2)
    }

    /// Controls whether the processor uses sleep or deep sleep as its low
    /// power mode.
    pub fn set_sleepdeep(self, value: bool) -> (r: Self)
        ensures
            r.0 == with_bit(self.0, 2, value),
    {
        ScrVal(write_bit(self.0, 2, value))
    }

    /// Configures sleep-on-exit when returning from Handler mode to Thread
    /// mode.
    pub fn sleeponexit(self) -> (r: bool)
        ensures
            r == bit_is_set(self.0, 1),
    {
        read_bit(self.0, 1)
    }

    /// Configures sleep-on-exit when returning from Handler mode to Thread
    /// mode.
    pub fn set_sleeponexit(self, value: bool) -> (r: Self)
        ensures
            r.0 == with_bit(self.0, 1, value),
    {
        ScrVal(write_bit(self.0, 1, value))
    }
}

/// The value written to `AIRCR` to request a system reset: the reset value
/// with `VECTKEY` (bits 16 to 31) set to the key and `SYSRESETREQ` (bit 2)
/// set.
pub open spec fn spec_reset_request() -> u32 {
    with_bit_set(with_field(AIRCR_RESET, 16, 16, AIRCR_VECTKEY as u32), 2)
}

/// Returns the value written to `AIRCR` to request a system reset.
pub fn aircr_reset_request() -> (r: u32)
    ensures
        r == spec_reset_request(),
        r == 0x05FA_0004,
        field_of(r, 16, 16) == AIRCR_VECTKEY,
        bit_is_set(r, 2),
{
    let r = set_bit(write_bits(AIRCR_RESET, 16, 16, AIRCR_VECTKEY), 2);
    assert({
        &&& with_bit_set(with_field(0xFA05_0000u32, 16, 16, 0x05FAu32), 2) == 0x05FA_0004u32
        &&& field_of(0x05FA_0004u32, 16, 16) == 0x05FAu32
        &&& bit_is_set(0x05FA_0004u32, 2)
    }) by (bit_vector);
    r
}

/// The value stored to `CCR` when the threads are initialized: the reset
/// value with `STKALIGN` (bit 9) and `NONBASETHRDENA` (bit 0) set.
pub open spec fn spec_ccr_thr_init() -> u32 {
    with_bit_set(with_bit_set(CCR_RESET, 9), 0)
}

/// Returns the value stored to `CCR` when the threads are initialized.
pub fn ccr_thr_init() -> (r: u32)
    ensures
        r == spec_ccr_thr_init(),
        r == 0x0000_0201,
{
    let r = set_bit(set_bit(CCR_RESET, 9), 0);
    assert(with_bit_set(with_bit_set(0x0000_0200u32, 9), 0) == 0x0000_0201u32) by (bit_vector);
    r
}

} // verus!
