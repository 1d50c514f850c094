//! Threads: NVIC interrupt control, thread wakers, executors and the
//! thread system initialization.

pub mod exec;
pub mod init;
pub mod nvic;
pub mod trunk;
pub mod vtable;
pub mod wake;
