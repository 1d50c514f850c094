//! Extended interrupts and events controller lines: the event loop of a
//! line.
//!
//! On each interrupt the loop reads the pending flag of the line through the
//! bit-band alias; when it is set, the loop clears it (the pending register
//! is cleared by writing one) and reports an event.

use vstd::prelude::*;

verus! {

/// Error returned from the stream of a line when events were missed.
#[derive(Debug, Clone, Copy, PartialEq, Eq, Structural)]
pub struct ExtiLnOverflow;

/// The outcome of one run of the event loop of a line.
#[derive(Debug, Clone, Copy, PartialEq, Eq, Structural)]
pub struct ExtiStep {
    /// Write one to the pending flag to clear it.
    pub clear_pending: bool,
    /// Report an event.
    pub event: bool,
}

/// Returns the outcome of a run of the loop from the pending flag `pif`.
pub fn exti_step(pif: bool) -> (r: ExtiStep)
    ensures
        r.clear_pending == pif,
        r.event == pif,
{
    ExtiStep { clear_pending: pif, event: pif }
}

} // verus!
