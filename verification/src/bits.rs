//! IEEE-754 binary32 values held by their bit encoding.
//!
//! Every component of the SIMD-aligned types in this crate is the 32-bit
//! encoding of a single-precision value: bit 31 is the sign, bits 23..31 the
//! biased exponent and bits 0..23 the fraction.
use vstd::prelude::*;

verus! {

/// Mask of the sign bit.
pub const SIGN_MASK: u32 = 0x8000_0000u32;

/// Mask of the exponent field.
pub const EXP_MASK: u32 = 0x7f80_0000u32;

/// Mask of the fraction field.
pub const FRAC_MASK: u32 = 0x007f_ffffu32;

/// Encoding of `0.0`.
pub const ZERO_BITS: u32 = 0x0000_0000u32;

/// Encoding of `1.0`.
pub const ONE_BITS: u32 = 0x3f80_0000u32;

/// Encoding of the canonical quiet NaN.
pub const NAN_BITS: u32 = 0x7fc0_0000u32;

/// The exponent field of `b`.
pub open spec fn exponent_field(b: u32) -> u32 {
    b & EXP_MASK
}

/// The fraction field of `b`.
pub open spec fn fraction_field(b: u32) -> u32 {
    b & FRAC_MASK
}

/// `b` encodes a NaN: the exponent is all ones and the fraction is not zero.
pub open spec fn spec_is_nan(b: u32) -> bool {
    exponent_field(b) == EXP_MASK && fraction_field(b) != 0
}

/// `b` encodes a finite value (zero, subnormal or normal): the exponent is
/// not all ones.
pub open spec fn spec_is_finite(b: u32) -> bool {
    exponent_field(b) != EXP_MASK
}

/// `b` encodes positive or negative zero.
pub open spec fn spec_is_zero(b: u32) -> bool {
    b & !SIGN_MASK == 0
}

/// The encoding of the absolute value of `b`: the same value with the sign
/// bit cleared (this holds for NaNs too).
pub open spec fn spec_abs(b: u32) -> u32 {
    b & !SIGN_MASK
}

/// The encoding of the negation of `b`: the same value with the sign bit
/// flipped (this holds for NaNs and zeros too).
pub open spec fn spec_neg(b: u32) -> u32 {
    b ^ SIGN_MASK
}

/// IEEE-754 equality of the values encoded by `a` and `b`: no NaN equals
/// anything, both zeros are equal, and otherwise the encodings must match.
pub open spec fn spec_eq(a: u32, b: u32) -> bool {
    &&& !spec_is_nan(a)
    &&& !spec_is_nan(b)
    &&& (a == b || (spec_is_zero(a) && spec_is_zero(b)))
}

/// Returns `true` if `b` encodes a NaN.
pub fn is_nan(b: u32) -> (r: bool)
    ensures
        r == spec_is_nan(b),
{
    assert((b & 0x7fff_ffffu32 > 0x7f80_0000u32) == ((b & 0x7f80_0000u32) == 0x7f80_0000u32 && (b
        & 0x007f_ffffu32) != 0)) by (bit_vector);
    b & 0x7fff_ffff > 0x7f80_0000
}

/// Returns `true` if `b` encodes a finite value.
pub fn is_finite(b: u32) -> (r: bool)
    ensures
        r == spec_is_finite(b),
{
    assert((b & 0x7fff_ffffu32 < 0x7f80_0000u32) == ((b & 0x7f80_0000u32) != 0x7f80_0000u32))
        by (bit_vector);
    b & 0x7fff_ffff < 0x7f80_0000
}

/// Returns the encoding of the absolute value of `b`.
pub fn abs(b: u32) -> (r: u32)
    ensures
        r == spec_abs(b),
{
    assert(b & 0x7fff_ffffu32 == b & !0x8000_0000u32) by (bit_vector);
    b & 0x7fff_ffff
}

/// Returns the encoding of the negation of `b`.
pub fn neg(b: u32) -> (r: u32)
    ensures
        r == spec_neg(b),
{
    b ^ SIGN_MASK
}

/// IEEE-754 equality of the values encoded by `a` and `b`.
pub fn eq(a: u32, b: u32) -> (r: bool)
    ensures
        r == spec_eq(a, b),
{
    assert(((a | b) & 0x7fff_ffffu32 == 0) == (a & !0x8000_0000u32 == 0 && b & !0x8000_0000u32
        == 0)) by (bit_vector);
    if is_nan(a) || is_nan(b) {
        false
    } else {
        a == b || (a | b) & 0x7fff_ffff == 0
    }
}

/// A NaN encoding is never finite, and clearing the sign bit neither creates
/// nor removes a NaN, an infinity or a zero.
pub proof fn lemma_classification(b: u32)
    ensures
        spec_is_nan(b) ==> !spec_is_finite(b),
        spec_is_nan(spec_abs(b)) == spec_is_nan(b),
        spec_is_finite(spec_abs(b)) == spec_is_finite(b),
        spec_is_zero(spec_abs(b)) == spec_is_zero(b),
        spec_abs(spec_abs(b)) == spec_abs(b),
{
    assert((b & !0x8000_0000u32) & 0x7f80_0000u32 == b & 0x7f80_0000u32) by (bit_vector);
    assert((b & !0x8000_0000u32) & 0x007f_ffffu32 == b & 0x007f_ffffu32) by (bit_vector);
    assert((b & !0x8000_0000u32) & !0x8000_0000u32 == b & !0x8000_0000u32) by (bit_vector);
}

/// Equality of encoded values is symmetric, and a value equals itself
/// exactly when it is not a NaN.
pub proof fn lemma_eq_laws(a: u32, b: u32)
    ensures
        spec_eq(a, b) == spec_eq(b, a),
        spec_eq(a, a) == !spec_is_nan(a),
{
}

/// Equality of encoded values is transitive.
pub proof fn lemma_eq_transitive(a: u32, b: u32, c: u32)
    requires
        spec_eq(a, b),
        spec_eq(b, c),
    ensures
        spec_eq(a, c),
{
}

/// Negating twice gives the encoding back; negation keeps the absolute value
/// and the classification, and two values are equal exactly when their
/// negations are.
pub proof fn lemma_neg(a: u32, b: u32)
    ensures
        spec_neg(spec_neg(a)) == a,
        spec_abs(spec_neg(a)) == spec_abs(a),
        spec_is_nan(spec_neg(a)) == spec_is_nan(a),
        spec_is_finite(spec_neg(a)) == spec_is_finite(a),
        spec_is_zero(spec_neg(a)) == spec_is_zero(a),
        spec_eq(spec_neg(a), spec_neg(b)) == spec_eq(a, b),
{
    assert((a ^ 0x8000_0000u32) ^ 0x8000_0000u32 == a) by (bit_vector);
    assert((a ^ 0x8000_0000u32) & !0x8000_0000u32 == a & !0x8000_0000u32) by (bit_vector);
    assert(((a ^ 0x8000_0000u32) & 0x7f80_0000u32 == a & 0x7f80_0000u32) && ((a ^ 0x8000_0000u32)
        & 0x007f_ffffu32 == a & 0x007f_ffffu32)) by (bit_vector);
    assert(((b ^ 0x8000_0000u32) & 0x7f80_0000u32 == b & 0x7f80_0000u32) && ((b ^ 0x8000_0000u32)
        & 0x007f_ffffu32 == b & 0x007f_ffffu32) && ((b ^ 0x8000_0000u32) & !0x8000_0000u32 == b
        & !0x8000_0000u32)) by (bit_vector);
    assert(((a ^ 0x8000_0000u32) == (b ^ 0x8000_0000u32)) == (a == b)) by (bit_vector);
}

/// Negation flips the sign bit and nothing else: the encodings of `a` and
/// `-a` differ exactly in the sign bit.
pub proof fn lemma_neg_flips_sign(a: u32)
    ensures
        spec_neg(a) ^ a == 0x8000_0000u32,
        spec_neg(a) & 0x7fff_ffffu32 == a & 0x7fff_ffffu32,
        (spec_neg(a) < 0x8000_0000u32) == (a >= 0x8000_0000u32),
{
    let r = spec_neg(a);
    assert(r ^ a == 0x8000_0000u32 && r & 0x7fff_ffffu32 == a & 0x7fff_ffffu32 && (r
        < 0x8000_0000u32) == (a >= 0x8000_0000u32)) by (bit_vector)
        requires
            r == a ^ 0x8000_0000u32,
    ;
}

} // verus!
