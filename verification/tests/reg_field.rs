use drone_cortexm::reg::atomic::{
    ExclAction, ExclEvent, ExclusiveUpdate, RwRegAtomic, WRwRegFieldBitAtomic,
    WRwRegFieldBitsAtomic,
};
use drone_cortexm::reg::bit_band::{RRRegFieldBitBand, RegBitBand, WWRegFieldBitBand};
use drone_cortexm::reg::field::{apply_field_op, apply_field_ops, FieldOp, Reg, RegFieldBit, RegFieldBits};

#[test]
fn field_tokens() {
    let reg = Reg::new(0x4001_0800);
    assert_eq!(reg.get_address(), 0x4001_0800);
    assert_eq!(reg.address(), 0x4001_0800);
    let bit = RegFieldBit::new(reg, 13);
    assert!(bit.read(1 << 13));
    assert!(!bit.read(!(1 << 13)));
    assert_eq!(bit.set(0), 1 << 13);
    assert_eq!(bit.clear(u32::MAX), !(1 << 13));
    assert_eq!(bit.toggle(1 << 13), 0);
    let bits = RegFieldBits::new(reg, 4, 4);
    assert_eq!(bits.read(0x0000_00A0), 0xA);
    assert_eq!(bits.write(0xFFFF_FFFF, 0x5), 0xFFFF_FF5F);
    assert_eq!(bits.get_field(), (4, 4));
}

#[test]
fn field_bit_band_pointers() {
    let reg = Reg::new(0x4000_0000);
    let bit = RegFieldBit::new(reg, 7);
    assert_eq!(bit.to_bit_band_ptr(), 0x4200_001C);
    assert_eq!(bit.to_bit_band_mut_ptr(), 0x4200_001C);
    let high = RegFieldBit::new(Reg::new(0x400F_FFFC), 31);
    assert_eq!(high.to_bit_band_ptr(), 0x43FF_FFFC);
}

#[test]
fn field_ops_apply_in_order() {
    let ops = vec![
        FieldOp::SetBit(0),
        FieldOp::WriteBits { offset: 8, width: 8, bits: 0xAB },
        FieldOp::ToggleBit(0),
        FieldOp::ClearBit(31),
    ];
    assert_eq!(apply_field_ops(0x8000_0000, &ops), 0x0000_AB00);
    assert_eq!(apply_field_op(0, FieldOp::SetBit(4)), 0x10);
    assert_eq!(apply_field_ops(0x1234, &Vec::new()), 0x1234);
}

#[test]
fn exclusive_update_retries_until_store_succeeds() {
    let (mut update, first) =
        ExclusiveUpdate::new(0xE000_ED14, vec![FieldOp::SetBit(4), FieldOp::ClearBit(0)]);
    assert_eq!(first, ExclAction::LoadExclusive);
    assert_eq!(update.get_address(), 0xE000_ED14);
    assert_eq!(update.step(ExclEvent::Loaded(0x0000_0201)), ExclAction::StoreExclusive(0x0000_0210));
    // The exclusive access was lost: load again.
    assert_eq!(update.step(ExclEvent::Stored(false)), ExclAction::LoadExclusive);
    // The value changed meanwhile: the new store is computed from it.
    assert_eq!(update.step(ExclEvent::Loaded(0x0000_0301)), ExclAction::StoreExclusive(0x0000_0310));
    assert_eq!(update.step(ExclEvent::Stored(true)), ExclAction::Done);
    // A finished update stays finished.
    assert_eq!(update.step(ExclEvent::Loaded(0)), ExclAction::Done);
}

#[test]
fn exclusive_update_store_without_load() {
    let (mut update, _) = ExclusiveUpdate::new(0x4000_0000, vec![FieldOp::SetBit(1)]);
    assert_eq!(update.step(ExclEvent::Stored(true)), ExclAction::LoadExclusive);
    assert_eq!(update.step(ExclEvent::Loaded(0)), ExclAction::StoreExclusive(2));
    assert_eq!(update.step(ExclEvent::Stored(true)), ExclAction::Done);
}

#[test]
fn atomic_field_operations() {
    let reg = Reg::new(0x4002_1018);
    let bit = RegFieldBit::new(reg, 2);
    let (mut u, a) = bit.set_bit();
    assert_eq!(a, ExclAction::LoadExclusive);
    assert_eq!(u.get_address(), 0x4002_1018);
    assert_eq!(u.step(ExclEvent::Loaded(0x10)), ExclAction::StoreExclusive(0x14));
    let (mut u, _) = bit.clear_bit();
    assert_eq!(u.step(ExclEvent::Loaded(0xFF)), ExclAction::StoreExclusive(0xFB));
    let (mut u, _) = bit.toggle_bit();
    assert_eq!(u.step(ExclEvent::Loaded(0x04)), ExclAction::StoreExclusive(0x00));
    let bits = RegFieldBits::new(reg, 8, 4);
    let (mut u, _) = bits.write_bits(0x1C);
    assert_eq!(u.step(ExclEvent::Loaded(0xFFFF_FFFF)), ExclAction::StoreExclusive(0xFFFF_FCFF));
    let (mut u, _) = reg.modify(|v| v | 1);
    assert_eq!(u.step(ExclEvent::Loaded(0)), ExclAction::StoreExclusive(1));
    // A lost exclusive access calls the closure again on the new load.
    assert_eq!(u.step(ExclEvent::Stored(false)), ExclAction::LoadExclusive);
    assert_eq!(u.step(ExclEvent::Loaded(2)), ExclAction::StoreExclusive(3));
    assert_eq!(u.step(ExclEvent::Stored(true)), ExclAction::Done);
    assert_eq!(u.step(ExclEvent::Loaded(8)), ExclAction::Done);
}
