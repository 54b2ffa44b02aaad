use x86_arch::bits::{
    bit8_read, bit8_write, bit16_read, bit16_write, bit32_read, bit32_write, bit64_read,
    bit64_write,
};

#[test]
fn single_bit_reads() {
    assert!(bit64_read(1 << 63, 63));
    assert!(!bit64_read(1 << 63, 0));
    assert!(bit32_read(0x8000_0000, 31));
    assert!(bit16_read(0x100, 8));
    assert!(bit8_read(0b10, 1));
    assert!(!bit8_read(0b10, 0));
}

#[test]
fn single_bit_writes() {
    assert_eq!(bit64_write(0, 12, true), 1 << 12);
    assert_eq!(bit64_write(1 << 12, 12, false), 0);
    assert_eq!(bit64_write(0xff, 0, false), 0xfe);
    assert_eq!(bit32_write(0, 31, true), 0x8000_0000);
    assert_eq!(bit16_write(0xffff, 15, false), 0x7fff);
    assert_eq!(bit8_write(0, 5, true), 0x20);
    // Writing a bit to its current value changes nothing.
    assert_eq!(bit8_write(0x20, 5, true), 0x20);
}
