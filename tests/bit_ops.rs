use coop_kernel::bits::{
    bit_clr, bit_count, bit_is_off, bit_is_on, bit_not, bit_set, bits_clr, bits_diff, bits_eq,
    bits_get, bits_intersect, bits_mask, bits_not, bits_set, bits_union,
};

#[test]
fn single_bit_operations() {
    assert_eq!(bit_clr(0xff, 3), 0xf7);
    assert_eq!(bit_clr(0x00, 31), 0x00);
    assert_eq!(bit_set(0x00, 31), 0x8000_0000);
    assert_eq!(bit_set(0x01, 0), 0x01);
    assert_eq!(bit_not(0x0f, 0), 0x0e);
    assert_eq!(bit_not(0x0e, 0), 0x0f);
    assert!(bit_is_on(0x80, 7));
    assert!(!bit_is_on(0x80, 6));
    assert!(bit_is_off(0x80, 6));
    assert!(!bit_is_off(0x8000_0000, 31));
}

#[test]
fn masks_and_fields() {
    assert_eq!(bits_mask(0), 0);
    assert_eq!(bits_mask(5), 0x1f);
    assert_eq!(bits_mask(31), 0x7fff_ffff);
    assert_eq!(bits_mask(32), 0xffff_ffff);
    assert_eq!(bits_get(0xabcd_1234, 8, 15), 0x12);
    assert_eq!(bits_get(0xffff_ffff, 0, 31), 0xffff_ffff);
    assert_eq!(bits_clr(0xffff_ffff, 4, 7), 0xffff_ff0f);
    assert_eq!(bits_set(0x0000_00d3, 0, 4, 0x10), 0x0000_00d0);
    assert_eq!(bits_set(0, 28, 31, 0xf), 0xf000_0000);
    assert!(bits_eq(0x0000_00d3, 0, 4, 0x13));
    assert!(!bits_eq(0x0000_00d3, 0, 4, 0x10));
}

#[test]
fn counting_and_set_operations() {
    assert_eq!(bit_count(0), 0);
    assert_eq!(bit_count(0xffff_ffff), 32);
    assert_eq!(bit_count(0x8000_0001), 2);
    assert_eq!(bit_count(0xf0f0), 8);
    assert_eq!(bits_union(0xf0, 0x0f), 0xff);
    assert_eq!(bits_intersect(0xf0, 0x3c), 0x30);
    assert_eq!(bits_not(0), 0xffff_ffff);
    assert_eq!(bits_diff(0xff, 0x0f), 0xf0);
}
