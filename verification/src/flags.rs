//! Flag words as the C library packs them.

use vstd::prelude::*;

verus! {

/// The 64 bits of a flag constant: the constant itself, with its sign
/// carried into the upper half where it is negative.
pub open spec fn flag_bits(discriminant: i32) -> u64 {
    if discriminant >= 0 {
        discriminant as u64
    } else {
        (0x1_0000_0000_0000_0000 + discriminant) as u64
    }
}

/// Whether `flags` has every bit of `mask` set.
pub open spec fn has_all_bits(flags: u64, mask: u64) -> bool {
    flags & mask == mask
}

/// Whether every bit of the flag constant `discriminant` is set in `flags`.
pub fn match_enum_with_libc_flag(flags: u64, discriminant: i32) -> (matches: bool)
    ensures
        matches == has_all_bits(flags, flag_bits(discriminant)),
{
    let mask: u64 = #[verifier::truncate]
    (discriminant as u64);
    assert(mask == if discriminant >= 0 {
        discriminant as int
    } else {
        0x1_0000_0000_0000_0000 + discriminant
    }) by (bit_vector)
        requires
            mask == #[verifier::truncate]
            (discriminant as u64),
    ;
    (flags & mask) == mask
}

/// `flags` has every bit of `mask` exactly if no bit of `mask` is missing
/// from it, and exactly if adding the bits of `mask` changes nothing.
pub proof fn lemma_has_all_bits(flags: u64, mask: u64)
    ensures
        has_all_bits(flags, mask) <==> mask & !flags == 0,
        has_all_bits(flags, mask) <==> flags | mask == flags,
        has_all_bits(flags, 0),
        has_all_bits(flags, flags),
{
    assert((flags & mask == mask) <==> (mask & !flags == 0)) by (bit_vector);
    assert((flags & mask == mask) <==> (flags | mask == flags)) by (bit_vector);
    assert(flags & 0 == 0) by (bit_vector);
    assert(flags & flags == flags) by (bit_vector);
}

} // verus!
