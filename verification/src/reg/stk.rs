//! SysTick timer registers.

use crate::reg::bits::{bit_is_set, field_of, with_bit, with_field};
use crate::reg::bits::{read_bit, read_bits, write_bit, write_bits};
use vstd::prelude::*;

verus! {

/// The address of the SysTick control and status register.
pub const STK_CTRL: usize = 0xE000_E010;

/// The address of the SysTick reload value register.
pub const STK_LOAD: usize = 0xE000_E014;

/// The address of the SysTick current value register.
pub const STK_VAL: usize = 0xE000_E018;

/// The address of the SysTick calibration value register.
pub const STK_CALIB: usize = 0xE000_E01C;

/// A value of the SysTick control and status register.
#[derive(Debug, Clone, Copy, PartialEq, Eq, Structural)]
pub struct CtrlVal(pub u32);

impl CtrlVal {
    /// Returns `true` if timer counted to `0` since last time this was read.
    pub fn countflag(self) -> (r: bool)
        ensures
            r == bit_is_set(self.0, 16),
    {
        read_bit(self.0, 16)
    }

    /// Clock source selection.
    pub fn clksource(self) -> (r: bool)
        ensures
            r == bit_is_set(self.0, 2),
    {
        read_bit(self.0, 2)
    }

    /// Clock source selection.
    pub fn set_clksource(self, value: bool) -> (r: Self)
        ensures
            r.0 == with_bit(self.0, 2, value),
    {
        CtrlVal(write_bit(self.0, 2, value))
    }

    /// SysTick exception request enable.
    pub fn tickint(self) -> (r: bool)
        ensures
            r == bit_is_set(self.0, 1),
    {
        read_bit(self.0, 1)
    }

    /// SysTick exception request enable.
    pub fn set_tickint(self, value: bool) -> (r: Self)
        ensures
            r.0 == with_bit(self.0, 1, value),
    {
        CtrlVal(write_bit(self.0, 1, value))
    }

    /// Counter enable.
    pub fn enable(self) -> (r: bool)
        ensures
            r == bit_is_set(self.0, 0),
    {
        read_bit(self.0, 0)
    }

    /// Counter enable.
    pub fn set_enable(self, value: bool) -> (r: Self)
        ensures
            r.0 == with_bit(self.0, 0, value),
    {
        CtrlVal(write_bit(self.0, 0, value))
    }
}

/// A value of the SysTick reload value register.
#[derive(Debug, Clone, Copy, PartialEq, Eq, Structural)]
pub struct LoadVal(pub u32);

impl LoadVal {
    /// RELOAD value.
    pub fn reload(self) -> (r: u32)
        ensures
            r == field_of(self.0, 0, 24),
    {
        read_bits(self.0, 0, 24)
    }

    /// RELOAD value.
    pub fn set_reload(self, value: u32) -> (r: Self)
        ensures
            r.0 == with_field(self.0, 0, 24, value),
    {
        LoadVal(write_bits(self.0, 0, 24, value))
    }
}

/// A value of the SysTick current value register.
#[derive(Debug, Clone, Copy, PartialEq, Eq, Structural)]
pub struct ValVal(pub u32);

impl ValVal {
    /// Current counter value.
    pub fn current(self) -> (r: u32)
        ensures
            r == field_of(self.0, 0, 24),
    {
        read_bits(self.0, 0, 24)
    }

    /// Current counter value.
    pub fn set_current(self, value: u32) -> (r: Self)
        ensures
            r.0 == with_field(self.0, 0, 24, value),
    {
        ValVal(write_bits(self.0, 0, 24, value))
    }
}

/// A value of the SysTick calibration value register.
#[derive(Debug, Clone, Copy, PartialEq, Eq, Structural)]
pub struct CalibVal(pub u32);

impl CalibVal {
    /// NOREF flag.
    pub fn noref(self) -> (r: bool)
        ensures
            r == bit_is_set(self.0, 31),
    {
        read_bit(self.0, 31)
    }

    /// SKEW flag.
    pub fn skew(self) -> (r: bool)
        ensures
            r == bit_is_set(self.0, 30),
    {
        read_bit(self.0, 30)
    }

    /// Calibration value.
    pub fn tenms(self) -> (r: u32)
        ensures
            r == field_of(self.0, 0, 24),
    {
        read_bits(self.0, 0, 24)
    }
}

} // verus!
