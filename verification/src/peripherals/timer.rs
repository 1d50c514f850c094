//! The SysTick timer driver.
//!
//! Starting the timer is a sequence of register writes: the counter is
//! stopped, the reload value and the current value are written, then the
//! counter is started with its exception enabled. A sleep stops the counter
//! again when it first fires; an interval keeps it running.

use crate::reg::bits::{
    bit_is_set, field_of, lemma_bit_ops, lemma_field_read_write, low_mask, with_bit_cleared,
    with_bit_set, with_field,
};
use crate::reg::stk::{CtrlVal, LoadVal, ValVal};
use vstd::prelude::*;

verus! {

/// Error returned from the interval stream of a timer when ticks were
/// missed.
#[derive(Debug, Clone, Copy, PartialEq, Eq, Structural)]
pub struct TimerOverflow;

/// A write to one of the SysTick registers.
#[derive(Debug, Clone, Copy, PartialEq, Eq, Structural)]
pub enum StkWrite {
    /// Store to the control and status register.
    Ctrl(CtrlVal),
    /// Store to the reload value register.
    Load(LoadVal),
    /// Store to the current value register.
    Val(ValVal),
}

/// The control value with the counter and its exception disabled.
pub open spec fn spec_disable(ctrl: u32) -> u32 {
    with_bit_cleared(with_bit_cleared(ctrl, 0), 1)
}

/// The control value with the counter and its exception enabled.
pub open spec fn spec_enable(ctrl: u32) -> u32 {
    with_bit_set(with_bit_set(ctrl, 0), 1)
}

/// The register writes that (re)start the timer with a period of
/// `duration` ticks, from the control value `ctrl`.
pub open spec fn spec_start_writes(duration: u32, ctrl: u32) -> Seq<StkWrite> {
    seq![
        StkWrite::Ctrl(CtrlVal(spec_disable(ctrl))),
        StkWrite::Load(LoadVal(with_field(0, 0, 24, duration))),
        StkWrite::Val(ValVal(with_field(0, 0, 24, 0))),
        StkWrite::Ctrl(CtrlVal(spec_enable(spec_disable(ctrl)))),
    ]
}

/// The SysTick timer driver logic.
pub struct SysTick;

impl SysTick {
    /// Clears `ENABLE` and `TICKINT`.
    pub fn disable(ctrl: CtrlVal) -> (r: CtrlVal)
        ensures
            r.0 == spec_disable(ctrl.0),
    {
        ctrl.set_enable(false).set_tickint(false)
    }

    /// Sets `ENABLE` and `TICKINT`.
    pub fn enable(ctrl: CtrlVal) -> (r: CtrlVal)
        ensures
            r.0 == spec_enable(ctrl.0),
    {
        ctrl.set_enable(true).set_tickint(true)
    }

    /// The reload and current values that schedule the next expiry after
    /// `duration` ticks, each written over the register reset value.
    pub fn schedule(duration: u32) -> (r: (LoadVal, ValVal))
        ensures
            r.0.0 == with_field(0, 0, 24, duration),
            r.1.0 == with_field(0, 0, 24, 0),
    {
        (LoadVal(0).set_reload(duration), ValVal(0).set_current(0))
    }

    /// Returns the register writes that start the timer with a period of
    /// `duration` ticks, from the control value `ctrl_val`.
    pub fn start(duration: u32, ctrl_val: CtrlVal) -> (r: Vec<StkWrite>)
        ensures
            r@ == spec_start_writes(duration, ctrl_val.0),
    {
        let stopped = Self::disable(ctrl_val);
        let (load, val) = Self::schedule(duration);
        let running = Self::enable(stopped);
        let r = vec![
            StkWrite::Ctrl(stopped),
            StkWrite::Load(load),
            StkWrite::Val(val),
            StkWrite::Ctrl(running),
        ];
        assert(r@ =~= spec_start_writes(duration, ctrl_val.0));
        r
    }

    /// Returns the register writes that start a sleep of `duration` ticks,
    /// and the control value stored when it completes, which stops the
    /// counter.
    pub fn sleep(duration: u32, ctrl_val: CtrlVal) -> (r: (Vec<StkWrite>, CtrlVal))
        ensures
            r.0@ == spec_start_writes(duration, ctrl_val.0),
            r.1.0 == spec_disable(ctrl_val.0),
    {
        let stopped = Self::disable(ctrl_val);
        (Self::start(duration, ctrl_val), stopped)
    }

    /// Returns the register writes that start a periodic interval of
    /// `duration` ticks.
    pub fn interval(duration: u32, ctrl_val: CtrlVal) -> (r: Vec<StkWrite>)
        ensures
            r@ == spec_start_writes(duration, ctrl_val.0),
    {
        Self::start(duration, ctrl_val)
    }

    /// Returns the control value that stops the timer.
    pub fn stop(ctrl_val: CtrlVal) -> (r: CtrlVal)
        ensures
            r.0 == spec_disable(ctrl_val.0),
    {
        Self::disable(ctrl_val)
    }
}

/// Starting the timer stops the counter before it writes the period, then
/// runs it with its exception enabled; the reload value is the duration
/// modulo 2^24, the counter restarts from zero, and the other control bits
/// keep their values.
pub proof fn lemma_start_writes(duration: u32, ctrl: u32, other: u32)
    requires
        other < 32,
        other != 0,
        other != 1,
    ensures
        ({
            let w = spec_start_writes(duration, ctrl);
            &&& w[0] matches StkWrite::Ctrl(c0) && !bit_is_set(c0.0, 0) && !bit_is_set(c0.0, 1)
            &&& w[1] matches StkWrite::Load(l) && field_of(l.0, 0, 24) == duration % 0x100_0000
            &&& w[2] matches StkWrite::Val(v) && field_of(v.0, 0, 24) == 0
            &&& w[3] matches StkWrite::Ctrl(c3) && bit_is_set(c3.0, 0) && bit_is_set(c3.0, 1)
                && bit_is_set(c3.0, other) == bit_is_set(ctrl, other)
        }),
{
    lemma_stop_disables(ctrl, other);
    let d = spec_disable(ctrl);
    lemma_bit_ops(d, 0, 1);
    lemma_bit_ops(with_bit_set(d, 0), 1, 0);
    lemma_bit_ops(d, 0, other);
    lemma_bit_ops(with_bit_set(d, 0), 1, other);
    lemma_field_read_write(0, 0, 24, duration);
    lemma_field_read_write(0, 0, 24, 0);
    assert(duration & low_mask(24) == duration % 0x100_0000) by (bit_vector);
    assert(0u32 & low_mask(24) == 0) by (bit_vector);
}

/// Stopping the timer clears `ENABLE` and `TICKINT` and keeps every other
/// control bit.
pub proof fn lemma_stop_disables(ctrl: u32, other: u32)
    requires
        other < 32,
        other != 0,
        other != 1,
    ensures
        !bit_is_set(spec_disable(ctrl), 0),
        !bit_is_set(spec_disable(ctrl), 1),
        bit_is_set(spec_disable(ctrl), other) == bit_is_set(ctrl, other),
{
    lemma_bit_ops(ctrl, 0, 1);
    lemma_bit_ops(with_bit_cleared(ctrl, 0), 1, 0);
    lemma_bit_ops(ctrl, 0, other);
    lemma_bit_ops(with_bit_cleared(ctrl, 0), 1, other);
}

} // verus!
