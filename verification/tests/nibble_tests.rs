use xor_lookup::nibble::split_byte;

#[test]
fn split_gives_quotient_and_remainder_by_sixteen() {
    assert_eq!(split_byte(179), (11, 3));
    assert_eq!(split_byte(77), (4, 13));
    assert_eq!(split_byte(254), (15, 14));
}

#[test]
fn split_of_smallest_and_largest_byte() {
    assert_eq!(split_byte(0), (0, 0));
    assert_eq!(split_byte(255), (15, 15));
    assert_eq!(split_byte(15), (0, 15));
    assert_eq!(split_byte(16), (1, 0));
}

#[test]
fn every_byte_recombines_from_its_nibbles() {
    for b in 0..=255u8 {
        let (hi, lo) = split_byte(b);
        assert!(hi < 16);
        assert!(lo < 16);
        assert_eq!(16 * u16::from(hi) + u16::from(lo), u16::from(b));
    }
}

#[test]
fn xor_of_bytes_is_xor_of_their_nibbles() {
    for left in 0..=255u8 {
        for right in 0..=255u8 {
            let (left_hi, left_lo) = split_byte(left);
            let (right_hi, right_lo) = split_byte(right);
            let (out_hi, out_lo) = split_byte(left ^ right);
            assert_eq!(out_hi, left_hi ^ right_hi);
            assert_eq!(out_lo, left_lo ^ right_lo);
        }
    }
}
