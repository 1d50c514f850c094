//! Register tokens and register field tokens, and the operations that a
//! read-modify-write of a register applies to its value.

use crate::reg::bit_band::{
    bit_band_addr, bit_band_alias, RRRegFieldBitBand, RegBitBand, WWRegFieldBitBand,
    WWRegFieldBitBandMarker,
};
use crate::reg::bits::{
    bit_is_set, clear_bit, field_fits, field_of, read_bit, read_bits, set_bit, toggle_bit,
    with_bit_cleared, with_bit_set, with_bit_toggled, with_field, write_bits,
};
use vstd::prelude::*;

verus! {

/// The address of a 32-bit register whose four bytes are all addressable.
pub open spec fn reg_address_ok(address: usize) -> bool {
    address + 4 <= usize::MAX
}

/// A 32-bit memory-mapped register.
#[derive(Debug, Clone, Copy)]
pub struct Reg {
    address: usize,
}

impl Reg {
    #[verifier::type_invariant]
    spec fn inv(self) -> bool {
        reg_address_ok(self.address)
    }

    /// The address of the register.
    pub closed spec fn addr(self) -> usize {
        self.address
    }

    /// Creates the token of the register at `address`.
    pub fn new(address: usize) -> (r: Reg)
        requires
            reg_address_ok(address),
        ensures
            r.addr() == address,
    {
        Reg { address }
    }

    /// Returns the address of the register, an addressable word.
    pub fn get_address(&self) -> (r: usize)
        ensures
            r == self.addr(),
            reg_address_ok(r),
    {
        proof {
            use_type_invariant(self);
        }
        self.address
    }
}

impl RegBitBand for Reg {
    open spec fn spec_address(&self) -> int {
        self.addr() as int
    }

    fn address(&self) -> (r: usize) {
        self.address
    }
}

/// One step of a read-modify-write of a register value.
#[derive(Debug, Clone, Copy, PartialEq, Eq, Structural)]
pub enum FieldOp {
    /// Sets the bit at the offset.
    SetBit(u32),
    /// Clears the bit at the offset.
    ClearBit(u32),
    /// Inverts the bit at the offset.
    ToggleBit(u32),
    /// Writes `bits` into the field of the given offset and width.
    WriteBits { offset: u32, width: u32, bits: u32 },
}

/// The operation stays within a 32-bit word.
pub open spec fn op_ok(op: FieldOp) -> bool {
    match op {
        FieldOp::SetBit(o) => o < 32,
        FieldOp::ClearBit(o) => o < 32,
        FieldOp::ToggleBit(o) => o < 32,
        FieldOp::WriteBits { offset, width, bits } => field_fits(offset, width),
    }
}

/// Every operation of the sequence stays within a 32-bit word.
pub open spec fn ops_ok(ops: Seq<FieldOp>) -> bool {
    forall|i: int| 0 <= i < ops.len() ==> op_ok(#[trigger] ops[i])
}

/// The value `v` after the operation.
pub open spec fn apply_op(v: u32, op: FieldOp) -> u32 {
    match op {
        FieldOp::SetBit(o) => with_bit_set(v, o),
        FieldOp::ClearBit(o) => with_bit_cleared(v, o),
        FieldOp::ToggleBit(o) => with_bit_toggled(v, o),
        FieldOp::WriteBits { offset, width, bits } => with_field(v, offset, width, bits),
    }
}

/// The value `v` after the operations, applied from the first to the last.
pub open spec fn apply_ops(v: u32, ops: Seq<FieldOp>) -> u32
    decreases ops.len(),
{
    if ops.len() == 0 {
        v
    } else {
        apply_op(apply_ops(v, ops.drop_last()), ops.last())
    }
}

/// Applies one operation to `v`.
pub fn apply_field_op(v: u32, op: FieldOp) -> (r: u32)
    requires
        op_ok(op),
    ensures
        r == apply_op(v, op),
{
    match op {
        FieldOp::SetBit(o) => set_bit(v, o),
        FieldOp::ClearBit(o) => clear_bit(v, o),
        FieldOp::ToggleBit(o) => toggle_bit(v, o),
        FieldOp::WriteBits { offset, width, bits } => write_bits(v, offset, width, bits),
    }
}

/// Applies the operations to `v`, from the first to the last.
pub fn apply_field_ops(v: u32, ops: &Vec<FieldOp>) -> (r: u32)
    requires
        ops_ok(ops@),
    ensures
        r == apply_ops(v, ops@),
{
    let mut acc: u32 = v;
    let mut i: usize = 0;
    while i < ops.len()
        invariant
            i <= ops.len(),
            ops_ok(ops@),
            acc == apply_ops(v, ops@.take(i as int)),
        decreases ops.len() - i,
    {
        assert(ops@.take(i as int + 1).drop_last() =~= ops@.take(i as int));
        acc = apply_field_op(acc, ops[i]);
        i = i + 1;
    }
    assert(ops@.take(ops.len() as int) =~= ops@);
    acc
}

/// A single-bit field of a 32-bit register.
#[derive(Debug, Clone, Copy)]
pub struct RegFieldBit {
    reg: Reg,
    offset: u32,
}

impl RegFieldBit {
    #[verifier::type_invariant]
    spec fn inv(self) -> bool {
        self.offset < 32
    }

    /// The register that holds the field.
    pub closed spec fn reg(self) -> Reg {
        self.reg
    }

    /// The position of the bit in the register.
    pub closed spec fn offset(self) -> u32 {
        self.offset
    }

    /// Creates the token of bit `offset` of `reg`.
    pub fn new(reg: Reg, offset: u32) -> (r: RegFieldBit)
        requires
            offset < 32,
        ensures
            r.reg() == reg,
            r.offset() == offset,
    {
        RegFieldBit { reg, offset }
    }

    /// Returns the register that holds the field.
    pub fn get_reg(&self) -> (r: Reg)
        ensures
            r == self.reg(),
    {
        self.reg
    }

    /// Returns the position of the bit in the register.
    pub fn get_offset(&self) -> (r: u32)
        ensures
            r == self.offset(),
            r < 32,
    {
        proof {
            use_type_invariant(self);
        }
        self.offset
    }

    /// Returns `true` if the bit is set in the register value `val`.
    pub fn read(&self, val: u32) -> (r: bool)
        ensures
            r == bit_is_set(val, self.offset()),
    {
        proof {
            use_type_invariant(self);
        }
        read_bit(val, self.offset)
    }

    /// Returns `val` with the bit set.
    pub fn set(&self, val: u32) -> (r: u32)
        ensures
            r == with_bit_set(val, self.offset()),
    {
        proof {
            use_type_invariant(self);
        }
        set_bit(val, self.offset)
    }

    /// Returns `val` with the bit cleared.
    pub fn clear(&self, val: u32) -> (r: u32)
        ensures
            r == with_bit_cleared(val, self.offset()),
    {
        proof {
            use_type_invariant(self);
        }
        clear_bit(val, self.offset)
    }

    /// Returns `val` with the bit inverted.
    pub fn toggle(&self, val: u32) -> (r: u32)
        ensures
            r == with_bit_toggled(val, self.offset()),
    {
        proof {
            use_type_invariant(self);
        }
        toggle_bit(val, self.offset)
    }
}

impl RRRegFieldBitBand for RegFieldBit {
    open spec fn spec_bit_band_ptr(&self) -> int {
        bit_band_alias(self.reg().addr() as int, self.offset() as int)
    }

    fn to_bit_band_ptr(&self) -> (r: usize) {
        proof {
            use_type_invariant(self);
            use_type_invariant(&self.reg);
        }
        bit_band_addr(self.reg.address, self.offset as usize)
    }
}

impl WWRegFieldBitBandMarker for RegFieldBit {}

impl WWRegFieldBitBand for RegFieldBit {
    open spec fn spec_bit_band_mut_ptr(&self) -> int {
        bit_band_alias(self.reg().addr() as int, self.offset() as int)
    }

    fn to_bit_band_mut_ptr(&self) -> (r: usize) {
        proof {
            use_type_invariant(self);
            use_type_invariant(&self.reg);
        }
        bit_band_addr(self.reg.address, self.offset as usize)
    }
}

/// A field of one or more bits of a 32-bit register.
#[derive(Debug, Clone, Copy)]
pub struct RegFieldBits {
    reg: Reg,
    offset: u32,
    width: u32,
}

impl RegFieldBits {
    #[verifier::type_invariant]
    spec fn inv(self) -> bool {
        field_fits(self.offset, self.width)
    }

    /// The register that holds the field.
    pub closed spec fn reg(self) -> Reg {
        self.reg
    }

    /// The position of the lowest bit of the field.
    pub closed spec fn offset(self) -> u32 {
        self.offset
    }

    /// The number of bits of the field.
    pub closed spec fn width(self) -> u32 {
        self.width
    }

    /// Creates the token of the `width` bits of `reg` at `offset`.
    pub fn new(reg: Reg, offset: u32, width: u32) -> (r: RegFieldBits)
        requires
            field_fits(offset, width),
        ensures
            r.reg() == reg,
            r.offset() == offset,
            r.width() == width,
    {
        RegFieldBits { reg, offset, width }
    }

    /// Returns the register that holds the field.
    pub fn get_reg(&self) -> (r: Reg)
        ensures
            r == self.reg(),
    {
        self.reg
    }

    /// Returns the offset and the width of the field, which fits in the word.
    pub fn get_field(&self) -> (r: (u32, u32))
        ensures
            r.0 == self.offset(),
            r.1 == self.width(),
            field_fits(r.0, r.1),
    {
        proof {
            use_type_invariant(self);
        }
        (self.offset, self.width)
    }

    /// Returns the bits of the field in the register value `val`.
    pub fn read(&self, val: u32) -> (r: u32)
        ensures
            r == field_of(val, self.offset(), self.width()),
    {
        proof {
            use_type_invariant(self);
        }
        read_bits(val, self.offset, self.width)
    }

    /// Returns `val` with the field replaced by the low bits of `bits`.
    pub fn write(&self, val: u32, bits: u32) -> (r: u32)
        ensures
            r == with_field(val, self.offset(), self.width(), bits),
    {
        proof {
            use_type_invariant(self);
        }
        write_bits(val, self.offset, self.width, bits)
    }
}

} // verus!
