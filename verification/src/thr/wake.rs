//! Thread wakers.
//!
//! A [`WakeInt`] wakes a thread by pending its interrupt through the
//! Software Trigger Interrupt Register; its raw waker data is the interrupt
//! number itself. [`WakeRoot`] and [`WakeTrunk`] wake a thread that waits for
//! an event with `WFE`.

use vstd::prelude::*;

verus! {

/// Software Trigger Interrupt Register.
pub const NVIC_STIR: usize = 0xE000_EF00;

/// A waker that pends an interrupt.
#[derive(Debug, Clone, Copy, PartialEq, Eq, Structural)]
pub struct WakeInt(u16);

impl WakeInt {
    /// The interrupt number.
    pub closed spec fn num(self) -> u16 {
        self.0
    }

    /// Creates the waker of interrupt `int_num`.
    pub fn new(int_num: u16) -> (r: WakeInt)
        ensures
            r.num() == int_num,
    {
        WakeInt(int_num)
    }

    /// Returns the interrupt number.
    pub fn int_num(&self) -> (r: u16)
        ensures
            r == self.num(),
    {
        self.0
    }

    /// Returns the address and the value of the store that pends the
    /// interrupt: the interrupt number written to `NVIC_STIR`.
    pub fn wakeup(&self) -> (r: (usize, usize))
        ensures
            r.0 == NVIC_STIR,
            r.1 == self.num() as usize,
    {
        (NVIC_STIR, self.0 as usize)
    }

    /// Returns the data word of the raw waker: the interrupt number.
    pub fn to_raw_data(&self) -> (r: usize)
        ensures
            r == self.num() as usize,
    {
        self.0 as usize
    }

    /// Recovers the waker from the data word of its raw waker, which keeps
    /// the low 16 bits.
    pub fn from_raw_data(data: usize) -> (r: WakeInt)
        ensures
            r.num() == data % 0x1_0000,
    {
        WakeInt((data % 0x1_0000) as u16)
    }
}

/// Cloning a raw interrupt waker gives a waker of the same interrupt.
pub proof fn lemma_wake_int_raw_round_trip(w: WakeInt)
    ensures
        (w.num() as usize) % 0x1_0000 == w.num(),
{
}

/// The Cortex-M cores, by revision.
#[derive(Debug, Clone, Copy, PartialEq, Eq, Structural)]
pub enum Core {
    /// ARM Cortex-M3 r0p0.
    CortexM3R0p0,
    /// ARM Cortex-M3 r1p0.
    CortexM3R1p0,
    /// ARM Cortex-M3 r1p1.
    CortexM3R1p1,
    /// ARM Cortex-M3 r2p0.
    CortexM3R2p0,
    /// ARM Cortex-M3 r2p1.
    CortexM3R2p1,
    /// ARM Cortex-M4 r0p0.
    CortexM4R0p0,
    /// ARM Cortex-M4 r0p1.
    CortexM4R0p1,
    /// ARM Cortex-M4F r0p0.
    CortexM4fR0p0,
    /// ARM Cortex-M4F r0p1.
    CortexM4fR0p1,
    /// ARM Cortex-M33 r0p2.
    CortexM33R0p2,
    /// ARM Cortex-M33 r0p3.
    CortexM33R0p3,
    /// ARM Cortex-M33 r0p4.
    CortexM33R0p4,
    /// ARM Cortex-M33F r0p2.
    CortexM33fR0p2,
    /// ARM Cortex-M33F r0p3.
    CortexM33fR0p3,
    /// ARM Cortex-M33F r0p4.
    CortexM33fR0p4,
}

/// The cores whose event register is not set on exception entry, exception
/// exit or debug events: Cortex-M3 r0p0, r1p0, r1p1 and r2p0.
pub open spec fn misses_exception_events(core: Core) -> bool {
    core is CortexM3R0p0 || core is CortexM3R1p0 || core is CortexM3R1p1 || core is CortexM3R2p0
}

/// The revision `(major, minor)` of a Cortex-M3 core (`r<major>p<minor>`);
/// `None` for the other cores.
pub open spec fn cortex_m3_revision(core: Core) -> Option<(int, int)> {
    match core {
        Core::CortexM3R0p0 => Some((0, 0)),
        Core::CortexM3R1p0 => Some((1, 0)),
        Core::CortexM3R1p1 => Some((1, 1)),
        Core::CortexM3R2p0 => Some((2, 0)),
        Core::CortexM3R2p1 => Some((2, 1)),
        _ => None,
    }
}

/// The cores that miss the exception events are exactly the Cortex-M3 cores
/// of a revision before r2p1; every Cortex-M4, M4F, M33 and M33F core, and
/// Cortex-M3 r2p1, sets the event register itself.
pub proof fn lemma_wake_sends_event_before_m3_r2p1(core: Core)
    ensures
        misses_exception_events(core) == (cortex_m3_revision(core) matches Some((major, minor))
            && (major < 2 || (major == 2 && minor < 1))),
{
}

/// The waker of the root thread, which waits for events.
pub struct WakeRoot(());

impl WakeRoot {
    /// Creates the waker.
    pub fn new() -> (r: WakeRoot) {
        WakeRoot(())
    }

    /// Returns `true` if waking the root thread has to send an event: only
    /// on the cores that do not set the event register on exception entry.
    pub fn wake_sends_event(&self, core: Core) -> (r: bool)
        ensures
            r == misses_exception_events(core),
            r == (cortex_m3_revision(core) matches Some((major, minor)) && (major < 2 || (major
                == 2 && minor < 1))),
    {
        proof {
            lemma_wake_sends_event_before_m3_r2p1(core);
        }
        match core {
            Core::CortexM3R0p0 | Core::CortexM3R1p0 | Core::CortexM3R1p1 | Core::CortexM3R2p0 => true,
            _ => false,
        }
    }
}

/// The waker of the lowest priority thread, which waits for events; waking
/// it always sends an event.
pub struct WakeTrunk(());

impl WakeTrunk {
    /// Creates the waker.
    pub fn new() -> (r: WakeTrunk) {
        WakeTrunk(())
    }
}

} // verus!
