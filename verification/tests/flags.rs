use intentrace::flags::match_enum_with_libc_flag;

#[test]
fn a_flag_matches_when_all_its_bits_are_set() {
    assert!(match_enum_with_libc_flag(0b1011, 0b0011));
    assert!(match_enum_with_libc_flag(0b1011, 0b1000));
    assert!(match_enum_with_libc_flag(0b1011, 0b1011));
    assert!(!match_enum_with_libc_flag(0b1011, 0b0100));
    assert!(!match_enum_with_libc_flag(0b1011, 0b0111));
}

#[test]
fn the_empty_flag_matches_everything() {
    assert!(match_enum_with_libc_flag(0, 0));
    assert!(match_enum_with_libc_flag(0x1234, 0));
    assert!(match_enum_with_libc_flag(u64::MAX, 0));
}

#[test]
fn a_negative_flag_carries_its_sign_into_the_upper_half() {
    // -1 is all 64 bits
    assert!(match_enum_with_libc_flag(u64::MAX, -1));
    assert!(!match_enum_with_libc_flag(0xffff_ffff, -1));
    // i32::MIN is bit 31 and everything above it
    assert!(match_enum_with_libc_flag(0xffff_ffff_8000_0000, i32::MIN));
    assert!(!match_enum_with_libc_flag(0x8000_0000, i32::MIN));
}

#[test]
fn the_largest_positive_flag() {
    assert!(match_enum_with_libc_flag(0x7fff_ffff, i32::MAX));
    assert!(!match_enum_with_libc_flag(0x7fff_fffe, i32::MAX));
    assert!(match_enum_with_libc_flag(u64::MAX, i32::MAX));
}
