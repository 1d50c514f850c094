//! Peripheral drivers: the decisions of their register sequences and
//! completion loops.

pub mod dma;
pub mod exti;
pub mod timer;
