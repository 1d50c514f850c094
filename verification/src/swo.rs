//! Single Wire Output: the ITM stimulus ports traced out through the SWO
//! pin.

use crate::reg::bits::{bit_is_set, field_of, read_bit, read_bits, with_field, write_bits};
use vstd::prelude::*;

verus! {

/// Number of ports.
pub const PORTS_COUNT: u8 = 32;

/// ITM Trace Enable Register: one enable bit per stimulus port.
pub const ITM_TER: usize = 0xE000_0E00;

/// ITM Trace Control Register.
pub const ITM_TCR: usize = 0xE000_0E80;

/// TPIU Asynchronous Clock Prescaler Register.
pub const TPIU_ACPR: usize = 0xE004_0010;

/// DWT Cycle Count Register.
pub const DWT_CYCCNT: usize = 0xE000_1004;

/// Returns `true` if the debug probe is connected and listening to the ITM
/// output: `ITMENA` (bit 0) of the trace control register value `tcr`.
pub fn is_enabled(tcr: u32) -> (r: bool)
    ensures
        r == bit_is_set(tcr, 0),
{
    read_bit(tcr, 0)
}

/// Returns `true` if the debug probe is listening to the output of ITM port
/// number `port`, from the trace enable register value `ter`.
pub fn is_port_enabled(ter: u32, port: usize) -> (r: bool)
    requires
        port < PORTS_COUNT,
    ensures
        r == bit_is_set(ter, port as u32),
{
    read_bit(ter, port as u32)
}

/// Returns `true` while the ITM is processing events: `BUSY` (bit 23) of the
/// trace control register value `tcr`. Flushing waits until it is clear.
pub fn is_busy(tcr: u32) -> (r: bool)
    ensures
        r == bit_is_set(tcr, 23),
{
    read_bit(tcr, 23)
}

/// Returns the number of processor cycles to spin after the ITM is idle so
/// that the last packet leaves the TPIU: 64 cycles per prescaler step,
/// `SWOSCALER` being bits 0 to 15 of the prescaler register value `acpr`.
pub fn flush_spin_cycles(acpr: u32) -> (r: u32)
    ensures
        r == field_of(acpr, 0, 16) * 64,
{
    let scaler = read_bits(acpr, 0, 16);
    assert(scaler < 0x1_0000) by (bit_vector)
        requires
            scaler == field_of(acpr, 0, 16),
    ;
    scaler * 64
}

/// What flushing does next.
#[derive(Debug, Clone, Copy, PartialEq, Eq, Structural)]
pub enum FlushStep {
    /// Nothing to flush: no debug probe is listening.
    Skip,
    /// The ITM is busy: read the trace control register again.
    Wait,
    /// The ITM is idle: spin for the last packet to leave, then return.
    Spin,
}

/// Decides the next step of flushing from the trace control register value
/// `tcr`; `waiting` is `false` on the first read. The first read checks
/// that a probe is listening; after that, flushing waits while the ITM is
/// busy.
pub fn flush_step(waiting: bool, tcr: u32) -> (r: FlushStep)
    ensures
        r == if !waiting && !bit_is_set(tcr, 0) {
            FlushStep::Skip
        } else if bit_is_set(tcr, 23) {
            FlushStep::Wait
        } else {
            FlushStep::Spin
        },
{
    if !waiting && !is_enabled(tcr) {
        FlushStep::Skip
    } else if is_busy(tcr) {
        FlushStep::Wait
    } else {
        FlushStep::Spin
    }
}

/// Returns the value stored to the prescaler register to set the SWO
/// prescaler to `swoscaler`, over the register reset value.
pub fn prescaler_value(swoscaler: u32) -> (r: u32)
    ensures
        r == with_field(0, 0, 16, swoscaler),
{
    write_bits(0, 0, 16, swoscaler)
}

/// The value written to the cycle counter to generate a synchronization
/// packet.
pub const SYNC_CYCCNT: u32 = 0xFFFF_FFFF;

} // verus!
