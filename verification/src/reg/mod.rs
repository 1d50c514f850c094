//! Memory-mapped registers.

pub mod atomic;
pub mod bit_band;
pub mod bits;
pub mod field;
pub mod guard;
pub mod scb;
pub mod stk;
