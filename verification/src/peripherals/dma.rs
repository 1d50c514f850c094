//! Direct memory access controller channels: the completion loop of a
//! transfer.
//!
//! The loop runs each time the channel interrupt fires. It reads the
//! transfer error flag and the awaited flag through the bit-band alias; on
//! either it clears the channel's flags (`CGIF`) and resolves, with an error
//! if the transfer failed.

use vstd::prelude::*;

verus! {

/// The outcome of one run of a DMA completion loop.
#[derive(Debug, Clone, Copy, PartialEq, Eq, Structural)]
pub enum DmaStep {
    /// Neither flag is set: wait for the next interrupt.
    Pending,
    /// The awaited event happened: clear the flags and resolve with the
    /// channel.
    Complete,
    /// The transfer failed: clear the flags and resolve with an error.
    Error,
}

/// Returns the outcome of a run of the loop from the transfer error flag
/// `teif` and the awaited flag `flag` (transfer complete, or half
/// transfer); an error takes precedence.
pub fn dma_step(teif: bool, flag: bool) -> (r: DmaStep)
    ensures
        r == if teif {
            DmaStep::Error
        } else if flag {
            DmaStep::Complete
        } else {
            DmaStep::Pending
        },
{
    if teif {
        DmaStep::Error
    } else if flag {
        DmaStep::Complete
    } else {
        DmaStep::Pending
    }
}

/// Returns `true` if the outcome clears the channel's flags: every outcome
/// that resolves the future.
pub fn clears_flags(step: DmaStep) -> (r: bool)
    ensures
        r == (step != DmaStep::Pending),
{
    match step {
        DmaStep::Pending => false,
        _ => true,
    }
}

/// Returns the result of a full-duplex transfer from the results of its
/// transmit and receive channels: it succeeds only if both do.
pub fn dx_transfer_result(tx_ok: bool, rx_ok: bool) -> (r: bool)
    ensures
        r == (tx_ok && rx_ok),
{
    tx_ok && rx_ok
}

} // verus!
