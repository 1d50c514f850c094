//! Reference-counted register guards.
//!
//! A [`RegGuard`] keeps a resource switched on (for example a peripheral
//! clock enable bit) while at least one guard for it exists. The guards of a
//! resource share one [`RegGuardCnt`] counter: creating or cloning a guard
//! increments it, releasing one decrements it, and the resource is switched
//! off by the release that brings the counter to zero. The release reads the
//! counter again at each attempt of its atomic update, so a guard created
//! meanwhile keeps the resource on.

use crate::reg::atomic::{excl_next_by, ExclAction, ExclEvent};
use crate::reg::bits::{with_bit_cleared, with_bit_set};
use crate::reg::field::{Reg, RegFieldBit};
use vstd::prelude::*;

verus! {

/// A register guard resource.
pub trait RegGuardRes: Copy {
    /// The register that holds the resource.
    spec fn spec_reg(&self) -> Reg;

    /// The register value `val` with the resource switched on.
    spec fn spec_up(&self, val: u32) -> u32;

    /// The register value `val` with the resource switched off.
    spec fn spec_down(&self, val: u32) -> u32;

    /// Returns the register that holds the resource.
    fn reg_token(&self) -> (r: Reg)
        ensures
            r == self.spec_reg(),
    ;

    /// Switches the resource on in the register value `val`.
    fn up(&self, val: u32) -> (r: u32)
        ensures
            r == self.spec_up(val),
    ;

    /// Switches the resource off in the register value `val`.
    fn down(&self, val: u32) -> (r: u32)
        ensures
            r == self.spec_down(val),
    ;
}

/// A single-bit field is a resource that is on while the bit is set.
impl RegGuardRes for RegFieldBit {
    open spec fn spec_reg(&self) -> Reg {
        self.reg()
    }

    open spec fn spec_up(&self, val: u32) -> u32 {
        with_bit_set(val, self.offset())
    }

    open spec fn spec_down(&self, val: u32) -> u32 {
        with_bit_cleared(val, self.offset())
    }

    fn reg_token(&self) -> (r: Reg) {
        self.get_reg()
    }

    fn up(&self, val: u32) -> (r: u32) {
        self.set(val)
    }

    fn down(&self, val: u32) -> (r: u32) {
        self.clear(val)
    }
}

/// The shared counter of the guards of one resource.
pub struct RegGuardCnt {
    count: usize,
}

impl RegGuardCnt {
    /// The number of live guards.
    pub closed spec fn count(self) -> usize {
        self.count
    }

    /// Creates a counter with no guard.
    pub fn new() -> (r: RegGuardCnt)
        ensures
            r.count() == 0,
    {
        RegGuardCnt { count: 0 }
    }

    /// Returns the number of live guards.
    pub fn get(&self) -> (r: usize)
        ensures
            r == self.count(),
    {
        self.count
    }
}

/// The counter after a guard is created (the atomic counter wraps around).
pub open spec fn count_up(count: usize) -> usize {
    if count == usize::MAX { 0 } else { (count + 1) as usize }
}

/// The counter after a guard is released (the atomic counter wraps around).
pub open spec fn count_down(count: usize) -> usize {
    if count == 0 { usize::MAX } else { (count - 1) as usize }
}

/// The register value that a guard release stores over the loaded value
/// `val`, given the counter after the release: the resource is switched off
/// when no guard is left, and the value is kept otherwise.
pub open spec fn release_value<T: RegGuardRes>(res: T, count_after: usize, val: u32) -> u32 {
    if count_after == 0 {
        res.spec_down(val)
    } else {
        val
    }
}

/// A register guard driver: the resource stays on while a guard exists.
pub struct RegGuard<T: RegGuardRes> {
    res: T,
}

impl<T: RegGuardRes> RegGuard<T> {
    /// The guarded resource.
    pub closed spec fn res(self) -> T {
        self.res
    }

    /// Enables the resource and returns the new guard, with the atomic update
    /// that switches the resource on.
    pub fn new(res: T, cnt: &mut RegGuardCnt) -> (r: (RegGuard<T>, GuardAcquire<T>, ExclAction))
        ensures
            final(cnt).count() == count_up(old(cnt).count()),
            r.0.res() == res,
            r.1.res() == res,
            r.1.address() == res.spec_reg().addr(),
            r.1.loaded() is None,
            !r.1.is_done(),
            r.2 == ExclAction::LoadExclusive,
    {
        cnt.count = if cnt.count == usize::MAX { 0 } else { cnt.count + 1 };
        let reg = res.reg_token();
        let acquire = GuardAcquire { res, address: reg.get_address(), loaded: None, done: false };
        (RegGuard { res }, acquire, ExclAction::LoadExclusive)
    }

    /// Returns another guard of the same resource.
    pub fn clone(&self, cnt: &mut RegGuardCnt) -> (r: RegGuard<T>)
        ensures
            final(cnt).count() == count_up(old(cnt).count()),
            r.res() == self.res(),
    {
        cnt.count = if cnt.count == usize::MAX { 0 } else { cnt.count + 1 };
        RegGuard { res: self.res }
    }

    /// Releases the guard: decrements the counter and starts the atomic
    /// update of the register that switches the resource off if no guard is
    /// left when the register is loaded.
    pub fn release(self, cnt: &mut RegGuardCnt) -> (r: (GuardRelease<T>, ExclAction))
        ensures
            final(cnt).count() == count_down(old(cnt).count()),
            r.0.res() == self.res(),
            r.0.address() == self.res().spec_reg().addr(),
            r.0.loaded() is None,
            !r.0.is_done(),
            r.1 == ExclAction::LoadExclusive,
    {
        cnt.count = if cnt.count == 0 { usize::MAX } else { cnt.count - 1 };
        let reg = self.res.reg_token();
        (
            GuardRelease { res: self.res, address: reg.get_address(), loaded: None, done: false },
            ExclAction::LoadExclusive,
        )
    }
}

/// The atomic update of a guard creation: switches the resource on in each
/// loaded value.
pub struct GuardAcquire<T: RegGuardRes> {
    res: T,
    address: usize,
    loaded: Option<u32>,
    done: bool,
}

impl<T: RegGuardRes> GuardAcquire<T> {
    /// The resource.
    pub closed spec fn res(self) -> T {
        self.res
    }

    /// The register address.
    pub closed spec fn address(self) -> usize {
        self.address
    }

    /// The value of the last exclusive load, while its store is pending.
    pub closed spec fn loaded(self) -> Option<u32> {
        self.loaded
    }

    /// Whether a store succeeded.
    pub closed spec fn is_done(self) -> bool {
        self.done
    }

    /// Returns the address of the register to load and store.
    pub fn get_address(&self) -> (r: usize)
        ensures
            r == self.address(),
    {
        self.address
    }

    /// Decides the next step after `event`: an exclusive update that stores
    /// each loaded value with the resource switched on.
    pub fn step(&mut self, event: ExclEvent) -> (r: ExclAction)
        ensures
            final(self).res() == old(self).res(),
            final(self).address() == old(self).address(),
            (final(self).loaded(), final(self).is_done(), r) == excl_next_by(
                |v: u32| old(self).res().spec_up(v),
                old(self).loaded(),
                old(self).is_done(),
                event,
            ),
    {
        if self.done {
            return ExclAction::Done;
        }
        match event {
            ExclEvent::Loaded(v) => {
                let new_val = self.res.up(v);
                self.loaded = Some(v);
                ExclAction::StoreExclusive(new_val)
            },
            ExclEvent::Stored(ok) => {
                if self.loaded.is_some() && ok {
                    self.done = true;
                    ExclAction::Done
                } else {
                    self.loaded = None;
                    ExclAction::LoadExclusive
                }
            },
        }
    }
}

/// The atomic update of a guard release. At each exclusive load it reads the
/// counter again: the stored value switches the resource off if no guard is
/// live at that moment, and is the loaded value otherwise.
pub struct GuardRelease<T: RegGuardRes> {
    res: T,
    address: usize,
    loaded: Option<u32>,
    done: bool,
}

impl<T: RegGuardRes> GuardRelease<T> {
    /// The resource.
    pub closed spec fn res(self) -> T {
        self.res
    }

    /// The register address.
    pub closed spec fn address(self) -> usize {
        self.address
    }

    /// The value of the last exclusive load, while its store is pending.
    pub closed spec fn loaded(self) -> Option<u32> {
        self.loaded
    }

    /// Whether a store succeeded.
    pub closed spec fn is_done(self) -> bool {
        self.done
    }

    /// Returns the address of the register to load and store.
    pub fn get_address(&self) -> (r: usize)
        ensures
            r == self.address(),
    {
        self.address
    }

    /// Decides the next step after `event`, with the counter `cnt` as it is
    /// now: an exclusive update that stores the release value of a release
    /// that leaves `cnt.count()` guards.
    pub fn step(&mut self, event: ExclEvent, cnt: &RegGuardCnt) -> (r: ExclAction)
        ensures
            final(self).res() == old(self).res(),
            final(self).address() == old(self).address(),
            (final(self).loaded(), final(self).is_done(), r) == excl_next_by(
                |v: u32| release_value(old(self).res(), cnt.count(), v),
                old(self).loaded(),
                old(self).is_done(),
                event,
            ),
    {
        if self.done {
            return ExclAction::Done;
        }
        match event {
            ExclEvent::Loaded(v) => {
                let new_val = if cnt.count == 0 {
                    self.res.down(v)
                } else {
                    v
                };
                self.loaded = Some(v);
                ExclAction::StoreExclusive(new_val)
            },
            ExclEvent::Stored(ok) => {
                if self.loaded.is_some() && ok {
                    self.done = true;
                    ExclAction::Done
                } else {
                    self.loaded = None;
                    ExclAction::LoadExclusive
                }
            },
        }
    }
}

/// An event in the life of the guards of one resource.
#[derive(Debug, Clone, Copy, PartialEq, Eq, Structural)]
pub enum GuardEvent {
    /// A guard is created (`new`) or cloned.
    Create,
    /// A live guard is released.
    Release,
}

/// The number of live guards after `events`, from none.
pub open spec fn live_guards(events: Seq<GuardEvent>) -> int
    decreases events.len(),
{
    if events.len() == 0 {
        0
    } else {
        live_guards(events.drop_last()) + match events.last() {
            GuardEvent::Create => 1int,
            GuardEvent::Release => -1int,
        }
    }
}

/// Every release is of a live guard, and the number of live guards never
/// exceeds the range of the counter.
pub open spec fn guard_events_ok(events: Seq<GuardEvent>) -> bool
    decreases events.len(),
{
    if events.len() == 0 {
        true
    } else {
        &&& guard_events_ok(events.drop_last())
        &&& match events.last() {
            GuardEvent::Create => live_guards(events.drop_last()) < usize::MAX,
            GuardEvent::Release => live_guards(events.drop_last()) > 0,
        }
    }
}

/// The counter after `events`, from zero: each creation steps it up, each
/// release steps it down.
pub open spec fn guard_count(events: Seq<GuardEvent>) -> usize
    decreases events.len(),
{
    if events.len() == 0 {
        0
    } else {
        match events.last() {
            GuardEvent::Create => count_up(guard_count(events.drop_last())),
            GuardEvent::Release => count_down(guard_count(events.drop_last())),
        }
    }
}

/// Along any sequence of guard creations, clones and releases of live
/// guards, the counter is the number of live guards after every call; a
/// release switches the resource off exactly when it drops the last live
/// guard, and keeps the register value otherwise.
pub proof fn lemma_guard_events<T: RegGuardRes>(res: T, events: Seq<GuardEvent>, v: u32)
    requires
        guard_events_ok(events),
    ensures
        guard_count(events) == live_guards(events),
        0 <= live_guards(events) <= usize::MAX,
        events.len() > 0 && events.last() == GuardEvent::Release ==> {
            &&& (live_guards(events) == 0 ==> release_value(res, guard_count(events), v)
                == res.spec_down(v))
            &&& (live_guards(events) > 0 ==> release_value(res, guard_count(events), v) == v)
        },
    decreases events.len(),
{
    if events.len() > 0 {
        lemma_guard_events(res, events.drop_last(), v);
    }
}

/// Creating a guard from counter `c` and releasing it brings the counter back
/// to `c`; that release switches the resource off exactly when `c` was zero.
pub proof fn lemma_guard_new_release(c: usize)
    ensures
        count_down(count_up(c)) == c,
        (count_down(count_up(c)) == 0) <==> (c == 0),
{
}

/// For a single-bit resource, the creation sets the bit and the last release
/// clears it.
pub proof fn lemma_bit_guard_ops(res: RegFieldBit, v: u32)
    ensures
        res.spec_up(v) == with_bit_set(v, res.offset()),
        release_value(res, 0, v) == with_bit_cleared(v, res.offset()),
{
}

} // verus!
