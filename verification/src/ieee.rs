//! Equality of single-precision numbers, on their bit patterns: sign in the
//! top bit, eight bits of exponent, twenty-three bits of fraction.

use vstd::prelude::*;

verus! {

/// The bits of the exponent.
pub const EXPONENT_MASK: u32 = 0x7f80_0000;

/// The bits of the fraction.
pub const FRACTION_MASK: u32 = 0x007f_ffff;

/// Every bit but the sign.
pub const MAGNITUDE_MASK: u32 = 0x7fff_ffff;

/// The bit pattern of the not-a-number sentinel.
pub const NAN_SENTINEL: u32 = 0x7fc0_0000;

/// Whether `bits` is a not-a-number: every exponent bit set and a fraction that is not zero.
pub open spec fn spec_is_nan(bits: u32) -> bool {
    bits & EXPONENT_MASK == EXPONENT_MASK && bits & FRACTION_MASK != 0
}

/// Whether `bits` is one of the two zeros.
pub open spec fn spec_is_zero(bits: u32) -> bool {
    bits & MAGNITUDE_MASK == 0
}

/// Whether two numbers compare equal: never where one is not a number;
/// the two zeros equal each other; any other two where their bits agree.
pub open spec fn spec_float_eq(a: u32, b: u32) -> bool {
    !spec_is_nan(a) && !spec_is_nan(b) && (a == b || (spec_is_zero(a) && spec_is_zero(b)))
}

pub fn is_nan(bits: u32) -> (r: bool)
    ensures
        r == spec_is_nan(bits),
{
    bits & EXPONENT_MASK == EXPONENT_MASK && bits & FRACTION_MASK != 0
}

pub fn float_eq(a: u32, b: u32) -> (r: bool)
    ensures
        r == spec_float_eq(a, b),
{
    !is_nan(a) && !is_nan(b) && (a == b || (a & MAGNITUDE_MASK == 0 && b & MAGNITUDE_MASK == 0))
}

/// The sentinel is a not-a-number.
pub proof fn lemma_sentinel_is_nan()
    ensures
        spec_is_nan(NAN_SENTINEL),
{
    assert(0x7fc0_0000u32 & 0x7f80_0000u32 == 0x7f80_0000u32) by (bit_vector);
    assert(0x7fc0_0000u32 & 0x007f_ffffu32 != 0) by (bit_vector);
}

/// Nothing compares equal to a not-a-number, the not-a-number itself included.
pub proof fn lemma_nan_equals_nothing(a: u32, b: u32)
    requires
        spec_is_nan(a) || spec_is_nan(b),
    ensures
        !spec_float_eq(a, b),
        !spec_float_eq(b, a),
{
}

/// Equality is reflexive on every number that is not a not-a-number.
pub proof fn lemma_number_equals_itself(a: u32)
    requires
        !spec_is_nan(a),
    ensures
        spec_float_eq(a, a),
{
}

} // verus!
