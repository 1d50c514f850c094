//! Atomic read-modify-write of registers with the exclusive monitor.
//!
//! An update loads the register with `LDREX`, computes the new value and
//! stores it with `STREX`. The store fails when the exclusive access was lost
//! in between (an interrupt or another access intervened), and the update
//! starts over from a fresh load. [`ExclusiveUpdate`] decides each step of
//! that loop; the caller performs the exclusive load and store it asks for.

use crate::reg::bits::{with_bit_cleared, with_bit_set, with_bit_toggled, with_field};
use crate::reg::field::{
    apply_field_ops, apply_ops, ops_ok, FieldOp, Reg, RegFieldBit, RegFieldBits,
};
use vstd::prelude::*;

verus! {

/// The next thing to do for an exclusive update.
#[derive(Debug, Clone, Copy, PartialEq, Eq, Structural)]
pub enum ExclAction {
    /// Load the register with an exclusive load.
    LoadExclusive,
    /// Store this value with an exclusive store.
    StoreExclusive(u32),
    /// The update is complete.
    Done,
}

/// What the exclusive access reported.
#[derive(Debug, Clone, Copy, PartialEq, Eq, Structural)]
pub enum ExclEvent {
    /// The exclusive load returned this value.
    Loaded(u32),
    /// The exclusive store succeeded (`true`) or lost the exclusive access.
    Stored(bool),
}

/// An atomic update of the register at `address` that applies `ops` to its
/// value.
pub struct ExclusiveUpdate {
    address: usize,
    ops: Vec<FieldOp>,
    loaded: Option<u32>,
    done: bool,
}

impl ExclusiveUpdate {
    #[verifier::type_invariant]
    spec fn inv(self) -> bool {
        ops_ok(self.ops@)
    }

    /// The register address.
    pub closed spec fn address(self) -> usize {
        self.address
    }

    /// The operations applied to the register value.
    pub closed spec fn ops(self) -> Seq<FieldOp> {
        self.ops@
    }

    /// The value of the last exclusive load, while its store is pending.
    pub closed spec fn loaded(self) -> Option<u32> {
        self.loaded
    }

    /// Whether a store succeeded.
    pub closed spec fn is_done(self) -> bool {
        self.done
    }

    /// Starts an update of the register at `address`; its first step is an
    /// exclusive load.
    pub fn new(address: usize, ops: Vec<FieldOp>) -> (r: (ExclusiveUpdate, ExclAction))
        requires
            ops_ok(ops@),
        ensures
            r.0.address() == address,
            r.0.ops() == ops@,
            r.0.loaded() is None,
            !r.0.is_done(),
            r.1 == ExclAction::LoadExclusive,
    {
        (ExclusiveUpdate { address, ops, loaded: None, done: false }, ExclAction::LoadExclusive)
    }

    /// Returns the address of the register to load and store.
    pub fn get_address(&self) -> (r: usize)
        ensures
            r == self.address(),
    {
        self.address
    }

    /// Decides the next step after `event`.
    ///
    /// A load is answered by a store of the operations applied to the loaded
    /// value. A successful store completes the update; a failed one starts it
    /// over with a new load. A store report with no store pending asks for a
    /// load again; a finished update stays finished.
    pub fn step(&mut self, event: ExclEvent) -> (r: ExclAction)
        ensures
            final(self).address() == old(self).address(),
            final(self).ops() == old(self).ops(),
            (final(self).loaded(), final(self).is_done(), r) == excl_next(
                old(self).ops(),
                old(self).loaded(),
                old(self).is_done(),
                event,
            ),
    {
        proof {
            use_type_invariant(&*self);
        }
        if self.done {
            return ExclAction::Done;
        }
        match event {
            ExclEvent::Loaded(v) => {
                let new_val = apply_field_ops(v, &self.ops);
                self.loaded = Some(v);
                ExclAction::StoreExclusive(new_val)
            },
            ExclEvent::Stored(ok) => {
                if self.loaded.is_some() && ok {
                    self.done = true;
                    ExclAction::Done
                } else {
                    self.loaded = None;
                    ExclAction::LoadExclusive
                }
            },
        }
    }
}

/// The transition of an exclusive update that stores `f` of each loaded
/// value: from the pending load value and the completion flag, on `event`,
/// the new pending load value, completion flag and next action.
pub open spec fn excl_next_by(
    f: spec_fn(u32) -> u32,
    loaded: Option<u32>,
    done: bool,
    event: ExclEvent,
) -> (Option<u32>, bool, ExclAction) {
    if done {
        (loaded, done, ExclAction::Done)
    } else {
        match event {
            ExclEvent::Loaded(v) => (Some(v), false, ExclAction::StoreExclusive(f(v))),
            ExclEvent::Stored(ok) => if loaded is Some && ok {
                (loaded, true, ExclAction::Done)
            } else {
                (None, false, ExclAction::LoadExclusive)
            },
        }
    }
}

/// The transition of an exclusive update that applies `ops`.
pub open spec fn excl_next(ops: Seq<FieldOp>, loaded: Option<u32>, done: bool, event: ExclEvent) -> (
    Option<u32>,
    bool,
    ExclAction,
) {
    excl_next_by(|v: u32| apply_ops(v, ops), loaded, done, event)
}

/// An exclusive update stores only the operations applied to the value of
/// its latest load, and completes exactly when that store succeeds: from any
/// unfinished state, a load of `v` asks to store `apply_ops(v, ops)`, and the
/// store report then completes the update if it succeeded, or asks for a new
/// load if it failed.
pub proof fn lemma_exclusive_update_round(
    ops: Seq<FieldOp>,
    loaded: Option<u32>,
    v: u32,
    ok: bool,
)
    ensures
        ({
            let (l1, d1, a1) = excl_next(ops, loaded, false, ExclEvent::Loaded(v));
            let (l2, d2, a2) = excl_next(ops, l1, d1, ExclEvent::Stored(ok));
            &&& a1 == ExclAction::StoreExclusive(apply_ops(v, ops))
            &&& d2 == ok
            &&& (ok ==> a2 == ExclAction::Done)
            &&& (!ok ==> a2 == ExclAction::LoadExclusive && l2 is None)
        }),
{
}

/// A store report that arrives with no load pending never completes the
/// update, and a completed update stays completed whatever happens next.
pub proof fn lemma_exclusive_update_no_blind_store(
    ops: Seq<FieldOp>,
    loaded: Option<u32>,
    done: bool,
    event: ExclEvent,
)
    ensures
        !done && loaded is None && event is Stored ==> excl_next(ops, loaded, done, event).2
            == ExclAction::LoadExclusive,
        done ==> excl_next(ops, loaded, done, event) == (loaded, done, ExclAction::Done),
{
}

/// An atomic update of the register at `address` that passes each loaded
/// value to the closure `f` and stores what it returns. Each retry calls
/// `f` again, on the new load.
pub struct ExclusiveModify<F: Fn(u32) -> u32> {
    address: usize,
    f: F,
    loaded: Option<u32>,
    done: bool,
}

impl<F: Fn(u32) -> u32> ExclusiveModify<F> {
    #[verifier::type_invariant]
    spec fn inv(self) -> bool {
        forall|v: u32| call_requires(self.f, (v,))
    }

    /// The register address.
    pub closed spec fn address(self) -> usize {
        self.address
    }

    /// The closure applied to the register value.
    pub closed spec fn f(self) -> F {
        self.f
    }

    /// The value of the last exclusive load, while its store is pending.
    pub closed spec fn loaded(self) -> Option<u32> {
        self.loaded
    }

    /// Whether a store succeeded.
    pub closed spec fn is_done(self) -> bool {
        self.done
    }

    /// Starts an update of the register at `address` with `f`; its first
    /// step is an exclusive load.
    pub fn new(address: usize, f: F) -> (r: (ExclusiveModify<F>, ExclAction))
        requires
            forall|v: u32| call_requires(f, (v,)),
        ensures
            r.0.address() == address,
            r.0.f() == f,
            r.0.loaded() is None,
            !r.0.is_done(),
            r.1 == ExclAction::LoadExclusive,
    {
        (ExclusiveModify { address, f, loaded: None, done: false }, ExclAction::LoadExclusive)
    }

    /// Returns the address of the register to load and store.
    pub fn get_address(&self) -> (r: usize)
        ensures
            r == self.address(),
    {
        self.address
    }

    /// Decides the next step after `event`: a load of `v` is answered by a
    /// store of what `f` returns on `v`; a successful store completes the
    /// update, a failed one (or one with no load pending) asks for a new
    /// load; a finished update stays finished.
    pub fn step(&mut self, event: ExclEvent) -> (r: ExclAction)
        ensures
            final(self).address() == old(self).address(),
            final(self).f() == old(self).f(),
            old(self).is_done() ==> r == ExclAction::Done && final(self).is_done()
                && final(self).loaded() == old(self).loaded(),
            !old(self).is_done() ==> match event {
                ExclEvent::Loaded(v) => {
                    &&& final(self).loaded() == Some(v)
                    &&& !final(self).is_done()
                    &&& r matches ExclAction::StoreExclusive(w) && call_ensures(
                        old(self).f(),
                        (v,),
                        w,
                    )
                },
                ExclEvent::Stored(ok) => if old(self).loaded() is Some && ok {
                    &&& final(self).loaded() == old(self).loaded()
                    &&& final(self).is_done()
                    &&& r == ExclAction::Done
                } else {
                    &&& final(self).loaded() is None
                    &&& !final(self).is_done()
                    &&& r == ExclAction::LoadExclusive
                },
            },
    {
        proof {
            use_type_invariant(&*self);
        }
        if self.done {
            return ExclAction::Done;
        }
        match event {
            ExclEvent::Loaded(v) => {
                let new_val = (self.f)(v);
                self.loaded = Some(v);
                ExclAction::StoreExclusive(new_val)
            },
            ExclEvent::Stored(ok) => {
                if self.loaded.is_some() && ok {
                    self.done = true;
                    ExclAction::Done
                } else {
                    self.loaded = None;
                    ExclAction::LoadExclusive
                }
            },
        }
    }
}

/// Atomic operations for a read-write register.
pub trait RwRegAtomic {
    /// The address of the register.
    spec fn spec_reg_address(&self) -> usize;

    /// Starts an atomic update of this register that passes its value to
    /// `f` and stores the result; `f` is called again on each retry.
    fn modify<F: Fn(u32) -> u32>(&self, f: F) -> (r: (ExclusiveModify<F>, ExclAction))
        requires
            forall|v: u32| call_requires(f, (v,)),
        ensures
            r.0.address() == self.spec_reg_address(),
            r.0.f() == f,
            r.0.loaded() is None,
            !r.0.is_done(),
            r.1 == ExclAction::LoadExclusive,
    ;
}

/// Atomic operations for a writable field of a read-write register.
pub trait WRwRegFieldAtomic {
    /// The address of the register that holds the field.
    spec fn spec_reg_address(&self) -> usize;

    /// Starts an atomic update of the register that holds the field, which
    /// passes the register value to `f` and stores the result; `f` is called
    /// again on each retry.
    fn modify<F: Fn(u32) -> u32>(&self, f: F) -> (r: (ExclusiveModify<F>, ExclAction))
        requires
            forall|v: u32| call_requires(f, (v,)),
        ensures
            r.0.address() == self.spec_reg_address(),
            r.0.f() == f,
            r.0.loaded() is None,
            !r.0.is_done(),
            r.1 == ExclAction::LoadExclusive,
    ;
}

/// Atomic operations for a writable single-bit field of a read-write
/// register.
pub trait WRwRegFieldBitAtomic: WRwRegFieldAtomic {
    /// The position of the bit.
    spec fn spec_bit(&self) -> u32;

    /// Starts an atomic update that sets the bit.
    fn set_bit(&self) -> (r: (ExclusiveUpdate, ExclAction))
        ensures
            r.0.address() == self.spec_reg_address(),
            r.0.ops() == seq![FieldOp::SetBit(self.spec_bit())],
            forall|v: u32| apply_ops(v, r.0.ops()) == with_bit_set(v, self.spec_bit()),
            r.0.loaded() is None,
            !r.0.is_done(),
            r.1 == ExclAction::LoadExclusive,
    ;

    /// Starts an atomic update that clears the bit.
    fn clear_bit(&self) -> (r: (ExclusiveUpdate, ExclAction))
        ensures
            r.0.address() == self.spec_reg_address(),
            r.0.ops() == seq![FieldOp::ClearBit(self.spec_bit())],
            forall|v: u32| apply_ops(v, r.0.ops()) == with_bit_cleared(v, self.spec_bit()),
            r.0.loaded() is None,
            !r.0.is_done(),
            r.1 == ExclAction::LoadExclusive,
    ;

    /// Starts an atomic update that inverts the bit.
    fn toggle_bit(&self) -> (r: (ExclusiveUpdate, ExclAction))
        ensures
            r.0.address() == self.spec_reg_address(),
            r.0.ops() == seq![FieldOp::ToggleBit(self.spec_bit())],
            forall|v: u32| apply_ops(v, r.0.ops()) == with_bit_toggled(v, self.spec_bit()),
            r.0.loaded() is None,
            !r.0.is_done(),
            r.1 == ExclAction::LoadExclusive,
    ;
}

/// Atomic operations for a writable multiple-bit field of a read-write
/// register.
pub trait WRwRegFieldBitsAtomic: WRwRegFieldAtomic {
    /// The position of the field.
    spec fn spec_field(&self) -> (u32, u32);

    /// Starts an atomic update that replaces the field by `bits`.
    fn write_bits(&self, bits: u32) -> (r: (ExclusiveUpdate, ExclAction))
        ensures
            r.0.address() == self.spec_reg_address(),
            forall|v: u32|
                apply_ops(v, r.0.ops()) == with_field(
                    v,
                    self.spec_field().0,
                    self.spec_field().1,
                    bits,
                ),
            r.0.loaded() is None,
            !r.0.is_done(),
            r.1 == ExclAction::LoadExclusive,
    ;
}

impl RwRegAtomic for Reg {
    open spec fn spec_reg_address(&self) -> usize {
        self.addr()
    }

    fn modify<F: Fn(u32) -> u32>(&self, f: F) -> (r: (ExclusiveModify<F>, ExclAction)) {
        ExclusiveModify::new(self.get_address(), f)
    }
}

impl WRwRegFieldAtomic for RegFieldBit {
    open spec fn spec_reg_address(&self) -> usize {
        self.reg().addr()
    }

    fn modify<F: Fn(u32) -> u32>(&self, f: F) -> (r: (ExclusiveModify<F>, ExclAction)) {
        ExclusiveModify::new(self.get_reg().get_address(), f)
    }
}

impl WRwRegFieldAtomic for RegFieldBits {
    open spec fn spec_reg_address(&self) -> usize {
        self.reg().addr()
    }

    fn modify<F: Fn(u32) -> u32>(&self, f: F) -> (r: (ExclusiveModify<F>, ExclAction)) {
        ExclusiveModify::new(self.get_reg().get_address(), f)
    }
}

/// Applying a single operation is applying it to the value itself.
proof fn lemma_apply_single(v: u32, op: FieldOp)
    ensures
        apply_ops(v, seq![op]) == crate::reg::field::apply_op(v, op),
{
    assert(seq![op].drop_last() =~= Seq::<FieldOp>::empty());
    assert(apply_ops(v, Seq::<FieldOp>::empty()) == v);
    assert(seq![op].last() == op);
}

impl WRwRegFieldBitAtomic for RegFieldBit {
    open spec fn spec_bit(&self) -> u32 {
        self.offset()
    }

    fn set_bit(&self) -> (r: (ExclusiveUpdate, ExclAction)) {
        let o = self.get_offset();
        let ops = vec![FieldOp::SetBit(o)];
        proof {
            assert(ops@ =~= seq![FieldOp::SetBit(o)]);
            assert forall|v: u32| apply_ops(v, ops@) == with_bit_set(v, o) by {
                lemma_apply_single(v, FieldOp::SetBit(o));
            }
        }
        ExclusiveUpdate::new(self.get_reg().get_address(), ops)
    }

    fn clear_bit(&self) -> (r: (ExclusiveUpdate, ExclAction)) {
        let o = self.get_offset();
        let ops = vec![FieldOp::ClearBit(o)];
        proof {
            assert(ops@ =~= seq![FieldOp::ClearBit(o)]);
            assert forall|v: u32| apply_ops(v, ops@) == with_bit_cleared(v, o) by {
                lemma_apply_single(v, FieldOp::ClearBit(o));
            }
        }
        ExclusiveUpdate::new(self.get_reg().get_address(), ops)
    }

    fn toggle_bit(&self) -> (r: (ExclusiveUpdate, ExclAction)) {
        let o = self.get_offset();
        let ops = vec![FieldOp::ToggleBit(o)];
        proof {
            assert(ops@ =~= seq![FieldOp::ToggleBit(o)]);
            assert forall|v: u32| apply_ops(v, ops@) == with_bit_toggled(v, o) by {
                lemma_apply_single(v, FieldOp::ToggleBit(o));
            }
        }
        ExclusiveUpdate::new(self.get_reg().get_address(), ops)
    }
}

impl WRwRegFieldBitsAtomic for RegFieldBits {
    open spec fn spec_field(&self) -> (u32, u32) {
        (self.offset(), self.width())
    }

    fn write_bits(&self, bits: u32) -> (r: (ExclusiveUpdate, ExclAction)) {
        let (offset, width) = self.get_field();
        let op = FieldOp::WriteBits { offset, width, bits };
        let ops = vec![op];
        proof {
            assert(ops@ =~= seq![op]);
            assert forall|v: u32|
                apply_ops(v, ops@) == with_field(v, offset, width, bits) by {
                lemma_apply_single(v, op);
            }
        }
        ExclusiveUpdate::new(self.get_reg().get_address(), ops)
    }
}

} // verus!
