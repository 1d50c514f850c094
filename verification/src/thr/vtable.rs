//! The vector table support.

use vstd::prelude::*;

verus! {

/// Reserved pointer in a vector table.
#[derive(Debug, Clone, Copy, PartialEq, Eq, Structural)]
pub enum Reserved {
    /// The only allowed value, zero.
    Vector,
}

impl Reserved {
    /// Returns the word stored in the vector table for a reserved entry.
    pub fn word(self) -> (r: usize)
        ensures
            r == 0,
    {
        match self {
            Reserved::Vector => 0,
        }
    }
}

/// Reset thread token: the thread of the reset handler, the first entry of
/// the threads array.
#[derive(Debug, Clone, Copy, PartialEq, Eq, Structural)]
pub struct Reset;

impl Reset {
    /// Returns the index of the reset thread in the threads array.
    pub fn thr_num(self) -> (r: usize)
        ensures
            r == 0,
    {
        0
    }
}

} // verus!
