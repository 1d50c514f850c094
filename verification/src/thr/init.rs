//! Initialization of the thread system.
//!
//! Initialization stores the configuration and control register with
//! `STKALIGN` and `NONBASETHRDENA` set, disables and clears the memory
//! protection unit when it has regions, and hands out the tokens of the
//! remaining configuration bits.

use crate::reg::bits::{field_of, read_bits};
use crate::reg::field::{Reg, RegFieldBit};
use crate::reg::scb::{ccr_thr_init, spec_ccr_thr_init, SCB_CCR};
use vstd::prelude::*;

verus! {

/// MPU Type Register.
pub const MPU_TYPE: usize = 0xE000_ED90;

/// MPU Control Register.
pub const MPU_CTRL: usize = 0xE000_ED94;

/// MPU Region Base Address Register.
pub const MPU_RBAR: usize = 0xE000_ED9C;

/// The tokens of the configuration bits that stay available after the
/// thread system is initialized.
pub struct ThrInitExtended {
    /// Ignore data bus fault during HardFault and NMI handlers.
    pub scb_ccr_bfhfnmign: RegFieldBit,
    /// Trap on divide by 0.
    pub scb_ccr_div_0_trp: RegFieldBit,
    /// Trap on unaligned accesses.
    pub scb_ccr_unalign_trp: RegFieldBit,
    /// Enables unprivileged software access to the Software Trigger
    /// Interrupt Register.
    pub scb_ccr_usersetmpend: RegFieldBit,
}

/// Initializes the thread system: returns the value stored to `CCR` and the
/// tokens of the remaining `CCR` bits.
pub fn init_extended() -> (r: (u32, ThrInitExtended))
    ensures
        r.0 == spec_ccr_thr_init(),
        r.1.scb_ccr_bfhfnmign.reg().addr() == SCB_CCR,
        r.1.scb_ccr_bfhfnmign.offset() == 8,
        r.1.scb_ccr_div_0_trp.reg().addr() == SCB_CCR,
        r.1.scb_ccr_div_0_trp.offset() == 4,
        r.1.scb_ccr_unalign_trp.reg().addr() == SCB_CCR,
        r.1.scb_ccr_unalign_trp.offset() == 3,
        r.1.scb_ccr_usersetmpend.reg().addr() == SCB_CCR,
        r.1.scb_ccr_usersetmpend.offset() == 1,
{
    let ccr = Reg::new(SCB_CCR);
    let tokens = ThrInitExtended {
        scb_ccr_bfhfnmign: RegFieldBit::new(ccr, 8),
        scb_ccr_div_0_trp: RegFieldBit::new(ccr, 4),
        scb_ccr_unalign_trp: RegFieldBit::new(ccr, 3),
        scb_ccr_usersetmpend: RegFieldBit::new(ccr, 1),
    };
    (ccr_thr_init(), tokens)
}

/// Initializes the thread system: returns the value stored to `CCR`. The
/// tokens of the remaining `CCR` bits are dropped.
pub fn init() -> (r: u32)
    ensures
        r == spec_ccr_thr_init(),
{
    let (ccr, _tokens) = init_extended();
    ccr
}

/// The region base address value that selects region `region` (`VALID` set,
/// `REGION` in bits 0 to 3) with a zero base address.
pub open spec fn spec_rbar_reset(region: u8) -> u32 {
    (16 + region % 16) as u32
}

/// Returns the region base address value that selects region `region` with
/// a zero base address.
pub fn rbar_reset(region: u8) -> (r: u32)
    ensures
        r == spec_rbar_reset(region),
{
    let low: u32 = (region % 16) as u32;
    assert((1u32 << 4u32) | low == 0x10 + low) by (bit_vector)
        requires
            low < 16,
    ;
    (1u32 << 4u32) | low
}

/// The words stored from `MPU_RBAR` on to reset the regions: for each of the
/// eight regions, its base address value and a zero attribute and size
/// value, which disables it.
pub open spec fn spec_mpu_reset_table() -> Seq<u32> {
    Seq::new(16, |i: int| if i % 2 == 0 { spec_rbar_reset((i / 2) as u8) } else { 0u32 })
}

/// Returns the words stored to reset the MPU regions.
pub fn mpu_reset_table() -> (r: Vec<u32>)
    ensures
        r@ == spec_mpu_reset_table(),
{
    let mut table: Vec<u32> = Vec::new();
    let mut region: u8 = 0;
    while region < 8
        invariant
            region <= 8,
            table@.len() == 2 * region,
            forall|i: int|
                0 <= i < table@.len() ==> table@[i] == spec_mpu_reset_table()[i],
        decreases 8 - region,
    {
        table.push(rbar_reset(region));
        table.push(0);
        region = region + 1;
    }
    assert(table@ =~= spec_mpu_reset_table());
    table
}

/// The stores that reset the MPU, in order: `MPU_CTRL := 0`, which disables
/// it, then the region table, eight words at a time to `MPU_RBAR` and the
/// seven alias words after it (`RASR`, `RBAR_A1`, `RASR_A1`, ... `RASR_A3`),
/// so that each region's base address value selects it and the zero that
/// follows disables it.
pub open spec fn spec_mpu_reset_writes() -> Seq<(usize, u32)> {
    seq![(MPU_CTRL, 0u32)] + Seq::new(
        16,
        |i: int| ((MPU_RBAR + 4 * (i % 8)) as usize, spec_mpu_reset_table()[i]),
    )
}

/// Returns the stores that reset the MPU, given the value of its type
/// register: none when the MPU has no data regions (`DREGION`, bits 8 to 15,
/// is zero), the control register store followed by the region table
/// otherwise.
pub fn mpu_reset(mpu_type: u32) -> (r: Option<Vec<(usize, u32)>>)
    ensures
        field_of(mpu_type, 8, 8) == 0 <==> r is None,
        r matches Some(w) ==> w@ == spec_mpu_reset_writes(),
{
    if read_bits(mpu_type, 8, 8) == 0 {
        return None;
    }
    let table = mpu_reset_table();
    let mut writes: Vec<(usize, u32)> = Vec::new();
    writes.push((MPU_CTRL, 0));
    let mut i: usize = 0;
    while i < 16
        invariant
            i <= 16,
            table@ == spec_mpu_reset_table(),
            writes@.len() == i + 1,
            forall|j: int|
                0 <= j < writes@.len() ==> writes@[j] == spec_mpu_reset_writes()[j],
        decreases 16 - i,
    {
        writes.push((MPU_RBAR + 4 * (i % 8), table[i]));
        i = i + 1;
    }
    assert(writes@ =~= spec_mpu_reset_writes());
    Some(writes)
}

} // verus!
