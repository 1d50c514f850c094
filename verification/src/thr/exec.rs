//! Executors of futures inside interrupt threads.
//!
//! An executor is a fiber of the interrupt thread: each time the thread runs
//! it polls the future once, yielding while the future is pending, and
//! completing when it resolves, after its output is handled.

use crate::reg::bits::with_bit_set;
use crate::thr::nvic::{
    lemma_single_store, state_bit, IntLine, IntToken, NVIC_BLOCK_COUNT, NVIC_INT_COUNT,
};
use crate::thr::wake::WakeInt;
use vstd::prelude::*;

verus! {

/// How the output of a completed future ends its executor.
#[derive(Debug, Clone, Copy, PartialEq, Eq, Structural)]
pub enum Termination {
    /// The future finished normally.
    Finished,
    /// The future finished with an error: the executor panics with it.
    Failed,
}

/// An output type of the futures run by the thread executors.
pub trait ExecOutput: Sized {
    /// Whether this output ends the executor normally.
    spec fn spec_terminate(&self) -> Termination;

    /// Returns how this output ends the executor.
    fn terminate(self) -> (r: Termination)
        ensures
            r == self.spec_terminate(),
    ;
}

impl ExecOutput for () {
    open spec fn spec_terminate(&self) -> Termination {
        Termination::Finished
    }

    fn terminate(self) -> (r: Termination) {
        Termination::Finished
    }
}

impl<E> ExecOutput for Result<(), E> {
    open spec fn spec_terminate(&self) -> Termination {
        if self is Ok {
            Termination::Finished
        } else {
            Termination::Failed
        }
    }

    fn terminate(self) -> (r: Termination) {
        match self {
            Ok(()) => Termination::Finished,
            Err(_) => Termination::Failed,
        }
    }
}

/// The state of an executor fiber after one poll of its future.
#[derive(Debug, Clone, Copy, PartialEq, Eq, Structural)]
pub enum FiberStep {
    /// The future is pending: the fiber yields until the next wake-up.
    Yielded,
    /// The future resolved: the fiber is complete, with how its output ends
    /// it.
    Complete(Termination),
}

/// Execution methods for interrupt tokens.
pub trait ThrExec: IntToken {
    /// Returns the waker that generates the interrupt of this thread.
    fn trigger(&self) -> (r: WakeInt)
        ensures
            r.num() == self.spec_int_num(),
    {
        let n = self.int_num();
        WakeInt::new(n as u16)
    }
}

impl ThrExec for IntLine {}

/// Triggering a thread wakes it and no other: the software trigger store of
/// its waker (the interrupt number, see `WakeInt::wakeup` and
/// `Nvic::store_stir`) sets the pending bit of the thread's interrupt `n`
/// and keeps the pending bit of every other interrupt `m`.
pub proof fn lemma_trigger_pends_own_interrupt(pending: Seq<u32>, n: nat, m: nat)
    requires
        pending.len() == NVIC_BLOCK_COUNT,
        n < NVIC_INT_COUNT,
        m < NVIC_INT_COUNT,
    ensures
        ({
            let b = (n / 32) as int;
            let after = pending.update(b, pending[b] | with_bit_set(0, (n % 32) as u32));
            &&& state_bit(after, n)
            &&& m != n ==> state_bit(after, m) == state_bit(pending, m)
        }),
{
    lemma_single_store(pending, n, m, true);
}

/// One run of an executor fiber, from the result of polling its future
/// (`None` while it is pending).
pub fn exec_step<O: ExecOutput>(poll: Option<O>) -> (r: FiberStep)
    ensures
        match poll {
            None => r == FiberStep::Yielded,
            Some(output) => r == FiberStep::Complete(output.spec_terminate()),
        },
{
    match poll {
        None => FiberStep::Yielded,
        Some(output) => FiberStep::Complete(output.terminate()),
    }
}

} // verus!
