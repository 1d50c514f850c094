use drone_cortexm::reg::bits::{
    clear_bit, read_bit, read_bits, set_bit, toggle_bit, write_bit, write_bits,
};

#[test]
fn bit_read_set_clear_toggle() {
    let v: u32 = 0b0011_1010;
    assert!(read_bit(v, 5));
    assert!(!read_bit(v, 0));
    let v = clear_bit(v, 5);
    assert_eq!(v, 0b0001_1010);
    assert!(!read_bit(v, 5));
    let v = set_bit(v, 5);
    assert_eq!(v, 0b0011_1010);
    let v = toggle_bit(v, 5);
    assert_eq!(v, 0b0001_1010);
    assert_eq!(set_bit(0, 31), 0x8000_0000);
    assert_eq!(write_bit(0xFF, 3, false), 0xF7);
    assert_eq!(write_bit(0, 3, true), 0x08);
}

#[test]
fn field_read_write() {
    // The 4-bit field at offset 1 of 0b0011_1010 is 0b1101.
    let v: u32 = 0b0011_1010;
    assert_eq!(read_bits(v, 1, 4), 0b1101);
    let w = write_bits(v, 1, 4, 0b1010);
    assert_eq!(read_bits(w, 1, 4), 0b1010);
    assert_eq!(w, 0b0011_0100);
    // Only the low bits of the written value are kept.
    assert_eq!(write_bits(0, 0, 24, 0x1234_5678), 0x0034_5678);
    // A whole-word field reads and writes the word.
    assert_eq!(read_bits(0xDEAD_BEEF, 0, 32), 0xDEAD_BEEF);
    assert_eq!(write_bits(0x1234_5678, 0, 32, 0xCAFE_F00D), 0xCAFE_F00D);
    // The other bits are kept.
    assert_eq!(write_bits(0xFFFF_FFFF, 8, 8, 0), 0xFFFF_00FF);
}
