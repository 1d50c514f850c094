use drone_cortexm::reg::bit_band::{bit_band_addr, BIT_BAND_BASE, BIT_BAND_WIDTH};

#[test]
fn reg_bit_band_addr() {
    assert_eq!(bit_band_addr(0x4000_0000, 0), 0x4200_0000);
    assert_eq!(bit_band_addr(0x4000_0000, 7), 0x4200_001C);
    assert_eq!(bit_band_addr(0x4000_0000, 31), 0x4200_007C);
    assert_eq!(bit_band_addr(0x400F_FFFC, 24), 0x43FF_FFE0);
    assert_eq!(bit_band_addr(0x400F_FFFC, 31), 0x43FF_FFFC);
}

#[test]
fn bit_band_constants() {
    assert_eq!(BIT_BAND_BASE, 0x4200_0000);
    assert_eq!(BIT_BAND_WIDTH, 5);
}
