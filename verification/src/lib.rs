//! Verified core of the ARM Cortex-M platform support for the Drone embedded
//! operating system: register bit-fields, the peripheral bit-band alias
//! region, NVIC interrupt registers, the supervisor-call dispatch, thread
//! wakers and the decision logic of the drivers.
//!
//! The library computes register values, addresses and the next step of the
//! drivers' loops; the volatile memory accesses and the processor hint
//! instructions are performed by the caller.

pub mod peripherals;
pub mod processor;
pub mod reg;
pub mod sv;
pub mod swo;
pub mod thr;
