//! Laws of the bitwise operations and shifts of the integer element types:
//! what `&`, `|`, `^`, `!`, `<<` and `>>` compute, stated through the
//! bits and the values of their operands.
use vstd::prelude::*;
use vstd::arithmetic::power2::{pow2, lemma_pow2_pos, lemma_pow2_unfold, lemma2_to64};
use vstd::arithmetic::div_mod::{
    lemma_small_mod, lemma_mul_mod_noop_right, lemma_mod_multiples_vanish,
    lemma_fundamental_div_mod, lemma_fundamental_div_mod_converse, lemma_mod_bound,
    lemma_div_is_ordered_by_denominator,
};
use vstd::bits::{
    lemma_u8_shr_is_div, lemma_u16_shr_is_div, lemma_u32_shr_is_div, lemma_u64_shr_is_div,
    lemma_u128_shr_is_div, lemma_usize_shr_is_div,
};

use crate::num::{Integer, spec_wrap, lemma_mod_near, lemma_signed_crop};

verus! {

/// Rounding toward negative infinity commutes with taking the bitwise
/// complement `-1 - a`.
proof fn lemma_floor_complement(a: int, p: int)
    requires
        p > 0,
    ensures
        -1 - (-1 - a) / p == a / p,
{
    lemma_fundamental_div_mod(a, p);
    lemma_mod_bound(a, p);
    let q = a / p;
    let r = a % p;
    assert(-1 - a == (-q - 1) * p + (p - 1 - r)) by (nonlinear_arith)
        requires
            a == p * q + r,
    ;
    lemma_fundamental_div_mod_converse(-1 - a, p, -q - 1, p - 1 - r);
}

/// Bit-level facts about `u8` that the laws on `u8` rest on.
proof fn lemma_u8_bit_facts(a: u8, b: u8, n: u8, c: u8) by (bit_vector)
    ensures
        (a & b) & !a == 0u8,
        (a & b) & !b == 0u8,
        (a & b) & !(a & b) == 0u8,
        a & !(a | b) == 0u8,
        b & !(a | b) == 0u8,
        (a | b) & !a & !b == 0u8,
        (a ^ b) & (a & b) == 0u8,
        ((a ^ b) | (a & b)) == (a | b),
        !a & a == 0u8,
        (!a | a) == !0u8,
        a ^ a == 0u8,
        a << 0u8 == a,
        (c as int) < 0x80int ==> ((c << 1u8) as int) == (c as int) * 2,
        (c as int) >= 0x80int ==> ((c << 1u8) as int) == (c as int) * 2 - 0x100int,
        0 < n < u8::BITS ==> (a << n) == ((a << ((n - 1) as u8)) << 1u8),
{
}

/// `&`, `|`, `^` and `!` on `u8` (the component operations of the bitwise
/// operators of `GVec4<u8>`) work on each bit on its own: the AND of `a`
/// and `b` holds exactly the bits set in both, their OR exactly the bits set
/// in either, their exclusive OR exactly the bits set in one but not both,
/// and the complement of `a` exactly the bits not set in `a`. In particular
/// `a ^ a` is zero.
pub proof fn lemma_u8_bitwise(a: u8, b: u8)
    ensures
        a.bits_and(b) & !a == 0u8,
        a.bits_and(b) & !b == 0u8,
        (a & b) & !a.bits_and(b) == 0u8,
        a & !a.bits_or(b) == 0u8,
        b & !a.bits_or(b) == 0u8,
        a.bits_or(b) & !a & !b == 0u8,
        a.bits_xor(b) & (a & b) == 0u8,
        (a.bits_xor(b) | (a & b)) == (a | b),
        a.bits_not() & a == 0u8,
        (a.bits_not() | a) == !0u8,
        a.bits_xor(a) == 0u8,
{
    lemma_u8_bit_facts(a, b, 0u8, 0u8);
}

/// Shifting a `u8` left by `n` multiplies it by `2^n` modulo `2^8`.
proof fn lemma_u8_shl_mod(x: u8, n: u8)
    requires
        n < u8::BITS,
    ensures
        ((x << n) as int) == (x as int * pow2(n as nat)) % 0x100int,
    decreases n,
{
    lemma2_to64();
    lemma_u8_bit_facts(x, x, n, x);
    if n == 0 {
        lemma_small_mod(x as nat, 0x100int as nat);
    } else {
        let m = (n - 1) as u8;
        lemma_u8_shl_mod(x, m);
        let y = x << m;
        lemma_u8_bit_facts(y, y, 0u8, y);
        lemma_mod_near(2 * (y as int), 0x100int);
        lemma_mul_mod_noop_right(2, x as int * pow2(m as nat), 0x100int);
        lemma_pow2_unfold(n as nat);
        assert(2 * (x as int * pow2(m as nat)) == x as int * pow2(n as nat)) by (nonlinear_arith)
            requires
                pow2(n as nat) == 2 * pow2(m as nat),
        ;
    }
}

/// Shifts of `u8` (the component operations of `<<` and `>>` of
/// `GVec4<u8>`) are multiplication and division by a power of two: `a << n`
/// is `a * 2^n` wrapped into the range of `u8`, and `a >> n` is `a / 2^n`
/// rounded toward negative infinity, for every `n` in `0..8`.
pub proof fn lemma_u8_shifts(a: u8, n: u8)
    requires
        n < u8::BITS,
    ensures
        a.bits_shl(n).spec_val() == spec_wrap::<u8>(a.spec_val() * pow2(n.spec_val() as nat)),
        a.bits_shr(n).spec_val() == a.spec_val() / (pow2(n.spec_val() as nat) as int),
{
    lemma_u8_shl_mod(a, n);
    lemma_u8_shr_is_div(a, n);
    lemma_pow2_pos(n as nat);
}

/// Bit-level facts about `u16` that the laws on `u16` rest on.
proof fn lemma_u16_bit_facts(a: u16, b: u16, n: u16, c: u16) by (bit_vector)
    ensures
        (a & b) & !a == 0u16,
        (a & b) & !b == 0u16,
        (a & b) & !(a & b) == 0u16,
        a & !(a | b) == 0u16,
        b & !(a | b) == 0u16,
        (a | b) & !a & !b == 0u16,
        (a ^ b) & (a & b) == 0u16,
        ((a ^ b) | (a & b)) == (a | b),
        !a & a == 0u16,
        (!a | a) == !0u16,
        a ^ a == 0u16,
        a << 0u16 == a,
        (c as int) < 0x8000int ==> ((c << 1u16) as int) == (c as int) * 2,
        (c as int) >= 0x8000int ==> ((c << 1u16) as int) == (c as int) * 2 - 0x1_0000int,
        0 < n < u16::BITS ==> (a << n) == ((a << ((n - 1) as u16)) << 1u16),
{
}

/// `&`, `|`, `^` and `!` on `u16` (the component operations of the bitwise
/// operators of `GVec4<u16>`) work on each bit on its own: the AND of `a`
/// and `b` holds exactly the bits set in both, their OR exactly the bits set
/// in either, their exclusive OR exactly the bits set in one but not both,
/// and the complement of `a` exactly the bits not set in `a`. In particular
/// `a ^ a` is zero.
pub proof fn lemma_u16_bitwise(a: u16, b: u16)
    ensures
        a.bits_and(b) & !a == 0u16,
        a.bits_and(b) & !b == 0u16,
        (a & b) & !a.bits_and(b) == 0u16,
        a & !a.bits_or(b) == 0u16,
        b & !a.bits_or(b) == 0u16,
        a.bits_or(b) & !a & !b == 0u16,
        a.bits_xor(b) & (a & b) == 0u16,
        (a.bits_xor(b) | (a & b)) == (a | b),
        a.bits_not() & a == 0u16,
        (a.bits_not() | a) == !0u16,
        a.bits_xor(a) == 0u16,
{
    lemma_u16_bit_facts(a, b, 0u16, 0u16);
}

/// Shifting a `u16` left by `n` multiplies it by `2^n` modulo `2^16`.
proof fn lemma_u16_shl_mod(x: u16, n: u16)
    requires
        n < u16::BITS,
    ensures
        ((x << n) as int) == (x as int * pow2(n as nat)) % 0x1_0000int,
    decreases n,
{
    lemma2_to64();
    lemma_u16_bit_facts(x, x, n, x);
    if n == 0 {
        lemma_small_mod(x as nat, 0x1_0000int as nat);
    } else {
        let m = (n - 1) as u16;
        lemma_u16_shl_mod(x, m);
        let y = x << m;
        lemma_u16_bit_facts(y, y, 0u16, y);
        lemma_mod_near(2 * (y as int), 0x1_0000int);
        lemma_mul_mod_noop_right(2, x as int * pow2(m as nat), 0x1_0000int);
        lemma_pow2_unfold(n as nat);
        assert(2 * (x as int * pow2(m as nat)) == x as int * pow2(n as nat)) by (nonlinear_arith)
            requires
                pow2(n as nat) == 2 * pow2(m as nat),
        ;
    }
}

/// Shifts of `u16` (the component operations of `<<` and `>>` of
/// `GVec4<u16>`) are multiplication and division by a power of two: `a << n`
/// is `a * 2^n` wrapped into the range of `u16`, and `a >> n` is `a / 2^n`
/// rounded toward negative infinity, for every `n` in `0..16`.
pub proof fn lemma_u16_shifts(a: u16, n: u16)
    requires
        n < u16::BITS,
    ensures
        a.bits_shl(n).spec_val() == spec_wrap::<u16>(a.spec_val() * pow2(n.spec_val() as nat)),
        a.bits_shr(n).spec_val() == a.spec_val() / (pow2(n.spec_val() as nat) as int),
{
    lemma_u16_shl_mod(a, n);
    lemma_u16_shr_is_div(a, n);
    lemma_pow2_pos(n as nat);
}

/// Bit-level facts about `u32` that the laws on `u32` rest on.
proof fn lemma_u32_bit_facts(a: u32, b: u32, n: u32, c: u32) by (bit_vector)
    ensures
        (a & b) & !a == 0u32,
        (a & b) & !b == 0u32,
        (a & b) & !(a & b) == 0u32,
        a & !(a | b) == 0u32,
        b & !(a | b) == 0u32,
        (a | b) & !a & !b == 0u32,
        (a ^ b) & (a & b) == 0u32,
        ((a ^ b) | (a & b)) == (a | b),
        !a & a == 0u32,
        (!a | a) == !0u32,
        a ^ a == 0u32,
        a << 0u32 == a,
        (c as int) < 0x8000_0000int ==> ((c << 1u32) as int) == (c as int) * 2,
        (c as int) >= 0x8000_0000int ==> ((c << 1u32) as int) == (c as int) * 2 - 0x1_0000_0000int,
        0 < n < u32::BITS ==> (a << n) == ((a << ((n - 1) as u32)) << 1u32),
{
}

/// `&`, `|`, `^` and `!` on `u32` (the component operations of the bitwise
/// operators of `GVec4<u32>`) work on each bit on its own: the AND of `a`
/// and `b` holds exactly the bits set in both, their OR exactly the bits set
/// in either, their exclusive OR exactly the bits set in one but not both,
/// and the complement of `a` exactly the bits not set in `a`. In particular
/// `a ^ a` is zero.
pub proof fn lemma_u32_bitwise(a: u32, b: u32)
    ensures
        a.bits_and(b) & !a == 0u32,
        a.bits_and(b) & !b == 0u32,
        (a & b) & !a.bits_and(b) == 0u32,
        a & !a.bits_or(b) == 0u32,
        b & !a.bits_or(b) == 0u32,
        a.bits_or(b) & !a & !b == 0u32,
        a.bits_xor(b) & (a & b) == 0u32,
        (a.bits_xor(b) | (a & b)) == (a | b),
        a.bits_not() & a == 0u32,
        (a.bits_not() | a) == !0u32,
        a.bits_xor(a) == 0u32,
{
    lemma_u32_bit_facts(a, b, 0u32, 0u32);
}

/// Shifting a `u32` left by `n` multiplies it by `2^n` modulo `2^32`.
proof fn lemma_u32_shl_mod(x: u32, n: u32)
    requires
        n < u32::BITS,
    ensures
        ((x << n) as int) == (x as int * pow2(n as nat)) % 0x1_0000_0000int,
    decreases n,
{
    lemma2_to64();
    lemma_u32_bit_facts(x, x, n, x);
    if n == 0 {
        lemma_small_mod(x as nat, 0x1_0000_0000int as nat);
    } else {
        let m = (n - 1) as u32;
        lemma_u32_shl_mod(x, m);
        let y = x << m;
        lemma_u32_bit_facts(y, y, 0u32, y);
        lemma_mod_near(2 * (y as int), 0x1_0000_0000int);
        lemma_mul_mod_noop_right(2, x as int * pow2(m as nat), 0x1_0000_0000int);
        lemma_pow2_unfold(n as nat);
        assert(2 * (x as int * pow2(m as nat)) == x as int * pow2(n as nat)) by (nonlinear_arith)
            requires
                pow2(n as nat) == 2 * pow2(m as nat),
        ;
    }
}

/// Shifts of `u32` (the component operations of `<<` and `>>` of
/// `GVec4<u32>`) are multiplication and division by a power of two: `a << n`
/// is `a * 2^n` wrapped into the range of `u32`, and `a >> n` is `a / 2^n`
/// rounded toward negative infinity, for every `n` in `0..32`.
pub proof fn lemma_u32_shifts(a: u32, n: u32)
    requires
        n < u32::BITS,
    ensures
        a.bits_shl(n).spec_val() == spec_wrap::<u32>(a.spec_val() * pow2(n.spec_val() as nat)),
        a.bits_shr(n).spec_val() == a.spec_val() / (pow2(n.spec_val() as nat) as int),
{
    lemma_u32_shl_mod(a, n);
    lemma_u32_shr_is_div(a, n);
    lemma_pow2_pos(n as nat);
}

/// Bit-level facts about `u64` that the laws on `u64` rest on.
proof fn lemma_u64_bit_facts(a: u64, b: u64, n: u64, c: u64) by (bit_vector)
    ensures
        (a & b) & !a == 0u64,
        (a & b) & !b == 0u64,
        (a & b) & !(a & b) == 0u64,
        a & !(a | b) == 0u64,
        b & !(a | b) == 0u64,
        (a | b) & !a & !b == 0u64,
        (a ^ b) & (a & b) == 0u64,
        ((a ^ b) | (a & b)) == (a | b),
        !a & a == 0u64,
        (!a | a) == !0u64,
        a ^ a == 0u64,
        a << 0u64 == a,
        (c as int) < 0x8000_0000_0000_0000int ==> ((c << 1u64) as int) == (c as int) * 2,
        (c as int) >= 0x8000_0000_0000_0000int ==> ((c << 1u64) as int) == (c as int) * 2 - 0x1_0000_0000_0000_0000int,
        0 < n < u64::BITS ==> (a << n) == ((a << ((n - 1) as u64)) << 1u64),
{
}

/// `&`, `|`, `^` and `!` on `u64` (the component operations of the bitwise
/// operators of `GVec4<u64>`) work on each bit on its own: the AND of `a`
/// and `b` holds exactly the bits set in both, their OR exactly the bits set
/// in either, their exclusive OR exactly the bits set in one but not both,
/// and the complement of `a` exactly the bits not set in `a`. In particular
/// `a ^ a` is zero.
pub proof fn lemma_u64_bitwise(a: u64, b: u64)
    ensures
        a.bits_and(b) & !a == 0u64,
        a.bits_and(b) & !b == 0u64,
        (a & b) & !a.bits_and(b) == 0u64,
        a & !a.bits_or(b) == 0u64,
        b & !a.bits_or(b) == 0u64,
        a.bits_or(b) & !a & !b == 0u64,
        a.bits_xor(b) & (a & b) == 0u64,
        (a.bits_xor(b) | (a & b)) == (a | b),
        a.bits_not() & a == 0u64,
        (a.bits_not() | a) == !0u64,
        a.bits_xor(a) == 0u64,
{
    lemma_u64_bit_facts(a, b, 0u64, 0u64);
}

/// Shifting a `u64` left by `n` multiplies it by `2^n` modulo `2^64`.
proof fn lemma_u64_shl_mod(x: u64, n: u64)
    requires
        n < u64::BITS,
    ensures
        ((x << n) as int) == (x as int * pow2(n as nat)) % 0x1_0000_0000_0000_0000int,
    decreases n,
{
    lemma2_to64();
    lemma_u64_bit_facts(x, x, n, x);
    if n == 0 {
        lemma_small_mod(x as nat, 0x1_0000_0000_0000_0000int as nat);
    } else {
        let m = (n - 1) as u64;
        lemma_u64_shl_mod(x, m);
        let y = x << m;
        lemma_u64_bit_facts(y, y, 0u64, y);
        lemma_mod_near(2 * (y as int), 0x1_0000_0000_0000_0000int);
        lemma_mul_mod_noop_right(2, x as int * pow2(m as nat), 0x1_0000_0000_0000_0000int);
        lemma_pow2_unfold(n as nat);
        assert(2 * (x as int * pow2(m as nat)) == x as int * pow2(n as nat)) by (nonlinear_arith)
            requires
                pow2(n as nat) == 2 * pow2(m as nat),
        ;
    }
}

/// Shifts of `u64` (the component operations of `<<` and `>>` of
/// `GVec4<u64>`) are multiplication and division by a power of two: `a << n`
/// is `a * 2^n` wrapped into the range of `u64`, and `a >> n` is `a / 2^n`
/// rounded toward negative infinity, for every `n` in `0..64`.
pub proof fn lemma_u64_shifts(a: u64, n: u64)
    requires
        n < u64::BITS,
    ensures
        a.bits_shl(n).spec_val() == spec_wrap::<u64>(a.spec_val() * pow2(n.spec_val() as nat)),
        a.bits_shr(n).spec_val() == a.spec_val() / (pow2(n.spec_val() as nat) as int),
{
    lemma_u64_shl_mod(a, n);
    lemma_u64_shr_is_div(a, n);
    lemma_pow2_pos(n as nat);
}

/// Bit-level facts about `u128` that the laws on `u128` rest on.
#[verifier::rlimit(100)]
proof fn lemma_u128_bit_facts(a: u128, b: u128, n: u128, c: u128) by (bit_vector)
    ensures
        (a & b) & !a == 0u128,
        (a & b) & !b == 0u128,
        (a & b) & !(a & b) == 0u128,
        a & !(a | b) == 0u128,
        b & !(a | b) == 0u128,
        (a | b) & !a & !b == 0u128,
        (a ^ b) & (a & b) == 0u128,
        ((a ^ b) | (a & b)) == (a | b),
        !a & a == 0u128,
        (!a | a) == !0u128,
        a ^ a == 0u128,
        a << 0u128 == a,
        (c as int) < 0x8000_0000_0000_0000_0000_0000_0000_0000int ==> ((c << 1u128) as int) == (c as int) * 2,
        (c as int) >= 0x8000_0000_0000_0000_0000_0000_0000_0000int ==> ((c << 1u128) as int) == (c as int) * 2 - 0x1_0000_0000_0000_0000_0000_0000_0000_0000int,
        0 < n < u128::BITS ==> (a << n) == ((a << ((n - 1) as u128)) << 1u128),
{
}

/// `&`, `|`, `^` and `!` on `u128` (the component operations of the bitwise
/// operators of `GVec4<u128>`) work on each bit on its own: the AND of `a`
/// and `b` holds exactly the bits set in both, their OR exactly the bits set
/// in either, their exclusive OR exactly the bits set in one but not both,
/// and the complement of `a` exactly the bits not set in `a`. In particular
/// `a ^ a` is zero.
pub proof fn lemma_u128_bitwise(a: u128, b: u128)
    ensures
        a.bits_and(b) & !a == 0u128,
        a.bits_and(b) & !b == 0u128,
        (a & b) & !a.bits_and(b) == 0u128,
        a & !a.bits_or(b) == 0u128,
        b & !a.bits_or(b) == 0u128,
        a.bits_or(b) & !a & !b == 0u128,
        a.bits_xor(b) & (a & b) == 0u128,
        (a.bits_xor(b) | (a & b)) == (a | b),
        a.bits_not() & a == 0u128,
        (a.bits_not() | a) == !0u128,
        a.bits_xor(a) == 0u128,
{
    lemma_u128_bit_facts(a, b, 0u128, 0u128);
}

/// Shifting a `u128` left by `n` multiplies it by `2^n` modulo `2^128`.
proof fn lemma_u128_shl_mod(x: u128, n: u128)
    requires
        n < u128::BITS,
    ensures
        ((x << n) as int) == (x as int * pow2(n as nat)) % 0x1_0000_0000_0000_0000_0000_0000_0000_0000int,
    decreases n,
{
    lemma2_to64();
    lemma_u128_bit_facts(x, x, n, x);
    if n == 0 {
        lemma_small_mod(x as nat, 0x1_0000_0000_0000_0000_0000_0000_0000_0000int as nat);
    } else {
        let m = (n - 1) as u128;
        lemma_u128_shl_mod(x, m);
        let y = x << m;
        lemma_u128_bit_facts(y, y, 0u128, y);
        lemma_mod_near(2 * (y as int), 0x1_0000_0000_0000_0000_0000_0000_0000_0000int);
        lemma_mul_mod_noop_right(2, x as int * pow2(m as nat), 0x1_0000_0000_0000_0000_0000_0000_0000_0000int);
        lemma_pow2_unfold(n as nat);
        assert(2 * (x as int * pow2(m as nat)) == x as int * pow2(n as nat)) by (nonlinear_arith)
            requires
                pow2(n as nat) == 2 * pow2(m as nat),
        ;
    }
}

/// Shifts of `u128` (the component operations of `<<` and `>>` of
/// `GVec4<u128>`) are multiplication and division by a power of two: `a << n`
/// is `a * 2^n` wrapped into the range of `u128`, and `a >> n` is `a / 2^n`
/// rounded toward negative infinity, for every `n` in `0..128`.
pub proof fn lemma_u128_shifts(a: u128, n: u128)
    requires
        n < u128::BITS,
    ensures
        a.bits_shl(n).spec_val() == spec_wrap::<u128>(a.spec_val() * pow2(n.spec_val() as nat)),
        a.bits_shr(n).spec_val() == a.spec_val() / (pow2(n.spec_val() as nat) as int),
{
    lemma_u128_shl_mod(a, n);
    lemma_u128_shr_is_div(a, n);
    lemma_pow2_pos(n as nat);
}

/// Bit-level facts about `usize` that the laws on `usize` rest on.
proof fn lemma_usize_bit_facts(a: usize, b: usize) by (bit_vector)
    ensures
        (a & b) & !a == 0usize,
        (a & b) & !b == 0usize,
        (a & b) & !(a & b) == 0usize,
        a & !(a | b) == 0usize,
        b & !(a | b) == 0usize,
        (a | b) & !a & !b == 0usize,
        (a ^ b) & (a & b) == 0usize,
        ((a ^ b) | (a & b)) == (a | b),
        !a & a == 0usize,
        (!a | a) == !0usize,
        a ^ a == 0usize,
{
}

/// `&`, `|`, `^` and `!` on `usize` (the component operations of the bitwise
/// operators of `GVec4<usize>`) work on each bit on its own: the AND of `a`
/// and `b` holds exactly the bits set in both, their OR exactly the bits set
/// in either, their exclusive OR exactly the bits set in one but not both,
/// and the complement of `a` exactly the bits not set in `a`. In particular
/// `a ^ a` is zero.
pub proof fn lemma_usize_bitwise(a: usize, b: usize)
    ensures
        a.bits_and(b) & !a == 0usize,
        a.bits_and(b) & !b == 0usize,
        (a & b) & !a.bits_and(b) == 0usize,
        a & !a.bits_or(b) == 0usize,
        b & !a.bits_or(b) == 0usize,
        a.bits_or(b) & !a & !b == 0usize,
        a.bits_xor(b) & (a & b) == 0usize,
        (a.bits_xor(b) | (a & b)) == (a | b),
        a.bits_not() & a == 0usize,
        (a.bits_not() | a) == !0usize,
        a.bits_xor(a) == 0usize,
{
    lemma_usize_bit_facts(a, b);
}

/// Shifting a `usize` right by `n` (the component operation of `>>` of
/// `GVec4<usize>`) divides it by `2^n`, for every `n` in `0..usize::BITS`.
pub proof fn lemma_usize_shr(a: usize, n: usize)
    requires
        n < usize::BITS,
    ensures
        a.bits_shr(n).spec_val() == a.spec_val() / (pow2(n.spec_val() as nat) as int),
{
    lemma_usize_shr_is_div(a, n);
}

/// Bit-level facts about `i8` that the laws on `i8` rest on.
proof fn lemma_i8_bit_facts(a: i8, b: i8, n: u8, c: u8) by (bit_vector)
    ensures
        (a & b) & !a == 0i8,
        (a & b) & !b == 0i8,
        (a & b) & !(a & b) == 0i8,
        a & !(a | b) == 0i8,
        b & !(a | b) == 0i8,
        (a | b) & !a & !b == 0i8,
        (a ^ b) & (a & b) == 0i8,
        ((a ^ b) | (a & b)) == (a | b),
        !a & a == 0i8,
        (!a | a) == !0i8,
        a ^ a == 0i8,
        n < i8::BITS ==> (a << n) == (((a as u8) << n) as i8),
        ((a as u8) as int) == (if a < 0 { a as int + 0x100int } else { a as int }),
        ((c as i8) as int) == (if (c as int) >= 0x80int { c as int - 0x100int } else { c as int }),
        a >= 0 && n < i8::BITS ==> (a >> n) == (((a as u8) >> n) as i8),
        a < 0 && n < i8::BITS ==> (a >> n) == !((((!a) as u8) >> n) as i8),
        ((!a) as int) == -1 - (a as int),
{
}

/// `&`, `|`, `^` and `!` on `i8` (the component operations of the bitwise
/// operators of `GVec4<i8>`) work on each bit on its own: the AND of `a`
/// and `b` holds exactly the bits set in both, their OR exactly the bits set
/// in either, their exclusive OR exactly the bits set in one but not both,
/// and the complement of `a` exactly the bits not set in `a`. In particular
/// `a ^ a` is zero.
pub proof fn lemma_i8_bitwise(a: i8, b: i8)
    ensures
        a.bits_and(b) & !a == 0i8,
        a.bits_and(b) & !b == 0i8,
        (a & b) & !a.bits_and(b) == 0i8,
        a & !a.bits_or(b) == 0i8,
        b & !a.bits_or(b) == 0i8,
        a.bits_or(b) & !a & !b == 0i8,
        a.bits_xor(b) & (a & b) == 0i8,
        (a.bits_xor(b) | (a & b)) == (a | b),
        a.bits_not() & a == 0i8,
        (a.bits_not() | a) == !0i8,
        a.bits_xor(a) == 0i8,
{
    lemma_i8_bit_facts(a, b, 0u8, 0u8);
}

/// Shifts of `i8` (the component operations of `<<` and `>>` of
/// `GVec4<i8>`) are multiplication and division by a power of two: `a << n`
/// is `a * 2^n` wrapped into the range of `i8`, and `a >> n` is `a / 2^n`
/// rounded toward negative infinity, for every `n` in `0..8`.
pub proof fn lemma_i8_shifts(a: i8, n: i8)
    requires
        0 <= n < i8::BITS,
    ensures
        a.bits_shl(n).spec_val() == spec_wrap::<i8>(a.spec_val() * pow2(n.spec_val() as nat)),
        a.bits_shr(n).spec_val() == a.spec_val() / (pow2(n.spec_val() as nat) as int),
{
    let k = n as u8;
    let p = pow2(n as nat) as int;
    lemma_pow2_pos(n as nat);
    assert(a << n == a << k);
    assert(a >> n == a >> k);
    let u = a as u8;
    lemma_i8_bit_facts(a, a, k, u << k);
    lemma_u8_shl_mod(u, k);
    if a < 0 {
        assert((u as int) * p == 0x100int * p + (a as int) * p) by (nonlinear_arith)
            requires
                u as int == a as int + 0x100int,
        ;
        lemma_mod_multiples_vanish(p, (a as int) * p, 0x100int);
    }
    lemma_signed_crop((a as int) * p, 0x80int);
    if a >= 0 {
        lemma_u8_shr_is_div(u, k);
        lemma_div_is_ordered_by_denominator(u as int, 1, p);
        lemma_i8_bit_facts(a, a, k, u >> k);
    } else {
        let na = !a;
        let z = na as u8;
        lemma_i8_bit_facts(na, na, k, z);
        lemma_u8_shr_is_div(z, k);
        lemma_div_is_ordered_by_denominator(z as int, 1, p);
        let w = z >> k;
        lemma_i8_bit_facts(a, a, k, w);
        lemma_i8_bit_facts(w as i8, w as i8, k, w);
        lemma_floor_complement(a as int, p);
    }
}

/// Bit-level facts about `i16` that the laws on `i16` rest on.
proof fn lemma_i16_bit_facts(a: i16, b: i16, n: u16, c: u16) by (bit_vector)
    ensures
        (a & b) & !a == 0i16,
        (a & b) & !b == 0i16,
        (a & b) & !(a & b) == 0i16,
        a & !(a | b) == 0i16,
        b & !(a | b) == 0i16,
        (a | b) & !a & !b == 0i16,
        (a ^ b) & (a & b) == 0i16,
        ((a ^ b) | (a & b)) == (a | b),
        !a & a == 0i16,
        (!a | a) == !0i16,
        a ^ a == 0i16,
        n < i16::BITS ==> (a << n) == (((a as u16) << n) as i16),
        ((a as u16) as int) == (if a < 0 { a as int + 0x1_0000int } else { a as int }),
        ((c as i16) as int) == (if (c as int) >= 0x8000int { c as int - 0x1_0000int } else { c as int }),
        a >= 0 && n < i16::BITS ==> (a >> n) == (((a as u16) >> n) as i16),
        a < 0 && n < i16::BITS ==> (a >> n) == !((((!a) as u16) >> n) as i16),
        ((!a) as int) == -1 - (a as int),
{
}

/// `&`, `|`, `^` and `!` on `i16` (the component operations of the bitwise
/// operators of `GVec4<i16>`) work on each bit on its own: the AND of `a`
/// and `b` holds exactly the bits set in both, their OR exactly the bits set
/// in either, their exclusive OR exactly the bits set in one but not both,
/// and the complement of `a` exactly the bits not set in `a`. In particular
/// `a ^ a` is zero.
pub proof fn lemma_i16_bitwise(a: i16, b: i16)
    ensures
        a.bits_and(b) & !a == 0i16,
        a.bits_and(b) & !b == 0i16,
        (a & b) & !a.bits_and(b) == 0i16,
        a & !a.bits_or(b) == 0i16,
        b & !a.bits_or(b) == 0i16,
        a.bits_or(b) & !a & !b == 0i16,
        a.bits_xor(b) & (a & b) == 0i16,
        (a.bits_xor(b) | (a & b)) == (a | b),
        a.bits_not() & a == 0i16,
        (a.bits_not() | a) == !0i16,
        a.bits_xor(a) == 0i16,
{
    lemma_i16_bit_facts(a, b, 0u16, 0u16);
}

/// Shifts of `i16` (the component operations of `<<` and `>>` of
/// `GVec4<i16>`) are multiplication and division by a power of two: `a << n`
/// is `a * 2^n` wrapped into the range of `i16`, and `a >> n` is `a / 2^n`
/// rounded toward negative infinity, for every `n` in `0..16`.
pub proof fn lemma_i16_shifts(a: i16, n: i16)
    requires
        0 <= n < i16::BITS,
    ensures
        a.bits_shl(n).spec_val() == spec_wrap::<i16>(a.spec_val() * pow2(n.spec_val() as nat)),
        a.bits_shr(n).spec_val() == a.spec_val() / (pow2(n.spec_val() as nat) as int),
{
    let k = n as u16;
    let p = pow2(n as nat) as int;
    lemma_pow2_pos(n as nat);
    assert(a << n == a << k);
    assert(a >> n == a >> k);
    let u = a as u16;
    lemma_i16_bit_facts(a, a, k, u << k);
    lemma_u16_shl_mod(u, k);
    if a < 0 {
        assert((u as int) * p == 0x1_0000int * p + (a as int) * p) by (nonlinear_arith)
            requires
                u as int == a as int + 0x1_0000int,
        ;
        lemma_mod_multiples_vanish(p, (a as int) * p, 0x1_0000int);
    }
    lemma_signed_crop((a as int) * p, 0x8000int);
    if a >= 0 {
        lemma_u16_shr_is_div(u, k);
        lemma_div_is_ordered_by_denominator(u as int, 1, p);
        lemma_i16_bit_facts(a, a, k, u >> k);
    } else {
        let na = !a;
        let z = na as u16;
        lemma_i16_bit_facts(na, na, k, z);
        lemma_u16_shr_is_div(z, k);
        lemma_div_is_ordered_by_denominator(z as int, 1, p);
        let w = z >> k;
        lemma_i16_bit_facts(a, a, k, w);
        lemma_i16_bit_facts(w as i16, w as i16, k, w);
        lemma_floor_complement(a as int, p);
    }
}

/// Bit-level facts about `i32` that the laws on `i32` rest on.
proof fn lemma_i32_bit_facts(a: i32, b: i32, n: u32, c: u32) by (bit_vector)
    ensures
        (a & b) & !a == 0i32,
        (a & b) & !b == 0i32,
        (a & b) & !(a & b) == 0i32,
        a & !(a | b) == 0i32,
        b & !(a | b) == 0i32,
        (a | b) & !a & !b == 0i32,
        (a ^ b) & (a & b) == 0i32,
        ((a ^ b) | (a & b)) == (a | b),
        !a & a == 0i32,
        (!a | a) == !0i32,
        a ^ a == 0i32,
        n < i32::BITS ==> (a << n) == (((a as u32) << n) as i32),
        ((a as u32) as int) == (if a < 0 { a as int + 0x1_0000_0000int } else { a as int }),
        ((c as i32) as int) == (if (c as int) >= 0x8000_0000int { c as int - 0x1_0000_0000int } else { c as int }),
        a >= 0 && n < i32::BITS ==> (a >> n) == (((a as u32) >> n) as i32),
        a < 0 && n < i32::BITS ==> (a >> n) == !((((!a) as u32) >> n) as i32),
        ((!a) as int) == -1 - (a as int),
{
}

/// `&`, `|`, `^` and `!` on `i32` (the component operations of the bitwise
/// operators of `GVec4<i32>`) work on each bit on its own: the AND of `a`
/// and `b` holds exactly the bits set in both, their OR exactly the bits set
/// in either, their exclusive OR exactly the bits set in one but not both,
/// and the complement of `a` exactly the bits not set in `a`. In particular
/// `a ^ a` is zero.
pub proof fn lemma_i32_bitwise(a: i32, b: i32)
    ensures
        a.bits_and(b) & !a == 0i32,
        a.bits_and(b) & !b == 0i32,
        (a & b) & !a.bits_and(b) == 0i32,
        a & !a.bits_or(b) == 0i32,
        b & !a.bits_or(b) == 0i32,
        a.bits_or(b) & !a & !b == 0i32,
        a.bits_xor(b) & (a & b) == 0i32,
        (a.bits_xor(b) | (a & b)) == (a | b),
        a.bits_not() & a == 0i32,
        (a.bits_not() | a) == !0i32,
        a.bits_xor(a) == 0i32,
{
    lemma_i32_bit_facts(a, b, 0u32, 0u32);
}

/// Shifts of `i32` (the component operations of `<<` and `>>` of
/// `GVec4<i32>`) are multiplication and division by a power of two: `a << n`
/// is `a * 2^n` wrapped into the range of `i32`, and `a >> n` is `a / 2^n`
/// rounded toward negative infinity, for every `n` in `0..32`.
pub proof fn lemma_i32_shifts(a: i32, n: i32)
    requires
        0 <= n < i32::BITS,
    ensures
        a.bits_shl(n).spec_val() == spec_wrap::<i32>(a.spec_val() * pow2(n.spec_val() as nat)),
        a.bits_shr(n).spec_val() == a.spec_val() / (pow2(n.spec_val() as nat) as int),
{
    let k = n as u32;
    let p = pow2(n as nat) as int;
    lemma_pow2_pos(n as nat);
    assert(a << n == a << k);
    assert(a >> n == a >> k);
    let u = a as u32;
    lemma_i32_bit_facts(a, a, k, u << k);
    lemma_u32_shl_mod(u, k);
    if a < 0 {
        assert((u as int) * p == 0x1_0000_0000int * p + (a as int) * p) by (nonlinear_arith)
            requires
                u as int == a as int + 0x1_0000_0000int,
        ;
        lemma_mod_multiples_vanish(p, (a as int) * p, 0x1_0000_0000int);
    }
    lemma_signed_crop((a as int) * p, 0x8000_0000int);
    if a >= 0 {
        lemma_u32_shr_is_div(u, k);
        lemma_div_is_ordered_by_denominator(u as int, 1, p);
        lemma_i32_bit_facts(a, a, k, u >> k);
    } else {
        let na = !a;
        let z = na as u32;
        lemma_i32_bit_facts(na, na, k, z);
        lemma_u32_shr_is_div(z, k);
        lemma_div_is_ordered_by_denominator(z as int, 1, p);
        let w = z >> k;
        lemma_i32_bit_facts(a, a, k, w);
        lemma_i32_bit_facts(w as i32, w as i32, k, w);
        lemma_floor_complement(a as int, p);
    }
}

/// Bit-level facts about `i64` that the laws on `i64` rest on.
proof fn lemma_i64_bit_facts(a: i64, b: i64, n: u64, c: u64) by (bit_vector)
    ensures
        (a & b) & !a == 0i64,
        (a & b) & !b == 0i64,
        (a & b) & !(a & b) == 0i64,
        a & !(a | b) == 0i64,
        b & !(a | b) == 0i64,
        (a | b) & !a & !b == 0i64,
        (a ^ b) & (a & b) == 0i64,
        ((a ^ b) | (a & b)) == (a | b),
        !a & a == 0i64,
        (!a | a) == !0i64,
        a ^ a == 0i64,
        n < i64::BITS ==> (a << n) == (((a as u64) << n) as i64),
        ((a as u64) as int) == (if a < 0 { a as int + 0x1_0000_0000_0000_0000int } else { a as int }),
        ((c as i64) as int) == (if (c as int) >= 0x8000_0000_0000_0000int { c as int - 0x1_0000_0000_0000_0000int } else { c as int }),
        a >= 0 && n < i64::BITS ==> (a >> n) == (((a as u64) >> n) as i64),
        a < 0 && n < i64::BITS ==> (a >> n) == !((((!a) as u64) >> n) as i64),
        ((!a) as int) == -1 - (a as int),
{
}

/// `&`, `|`, `^` and `!` on `i64` (the component operations of the bitwise
/// operators of `GVec4<i64>`) work on each bit on its own: the AND of `a`
/// and `b` holds exactly the bits set in both, their OR exactly the bits set
/// in either, their exclusive OR exactly the bits set in one but not both,
/// and the complement of `a` exactly the bits not set in `a`. In particular
/// `a ^ a` is zero.
pub proof fn lemma_i64_bitwise(a: i64, b: i64)
    ensures
        a.bits_and(b) & !a == 0i64,
        a.bits_and(b) & !b == 0i64,
        (a & b) & !a.bits_and(b) == 0i64,
        a & !a.bits_or(b) == 0i64,
        b & !a.bits_or(b) == 0i64,
        a.bits_or(b) & !a & !b == 0i64,
        a.bits_xor(b) & (a & b) == 0i64,
        (a.bits_xor(b) | (a & b)) == (a | b),
        a.bits_not() & a == 0i64,
        (a.bits_not() | a) == !0i64,
        a.bits_xor(a) == 0i64,
{
    lemma_i64_bit_facts(a, b, 0u64, 0u64);
}

/// Shifts of `i64` (the component operations of `<<` and `>>` of
/// `GVec4<i64>`) are multiplication and division by a power of two: `a << n`
/// is `a * 2^n` wrapped into the range of `i64`, and `a >> n` is `a / 2^n`
/// rounded toward negative infinity, for every `n` in `0..64`.
pub proof fn lemma_i64_shifts(a: i64, n: i64)
    requires
        0 <= n < i64::BITS,
    ensures
        a.bits_shl(n).spec_val() == spec_wrap::<i64>(a.spec_val() * pow2(n.spec_val() as nat)),
        a.bits_shr(n).spec_val() == a.spec_val() / (pow2(n.spec_val() as nat) as int),
{
    let k = n as u64;
    let p = pow2(n as nat) as int;
    lemma_pow2_pos(n as nat);
    assert(a << n == a << k);
    assert(a >> n == a >> k);
    let u = a as u64;
    lemma_i64_bit_facts(a, a, k, u << k);
    lemma_u64_shl_mod(u, k);
    if a < 0 {
        assert((u as int) * p == 0x1_0000_0000_0000_0000int * p + (a as int) * p) by (nonlinear_arith)
            requires
                u as int == a as int + 0x1_0000_0000_0000_0000int,
        ;
        lemma_mod_multiples_vanish(p, (a as int) * p, 0x1_0000_0000_0000_0000int);
    }
    lemma_signed_crop((a as int) * p, 0x8000_0000_0000_0000int);
    if a >= 0 {
        lemma_u64_shr_is_div(u, k);
        lemma_div_is_ordered_by_denominator(u as int, 1, p);
        lemma_i64_bit_facts(a, a, k, u >> k);
    } else {
        let na = !a;
        let z = na as u64;
        lemma_i64_bit_facts(na, na, k, z);
        lemma_u64_shr_is_div(z, k);
        lemma_div_is_ordered_by_denominator(z as int, 1, p);
        let w = z >> k;
        lemma_i64_bit_facts(a, a, k, w);
        lemma_i64_bit_facts(w as i64, w as i64, k, w);
        lemma_floor_complement(a as int, p);
    }
}

/// Bit-level facts about `i128` that the laws on `i128` rest on.
#[verifier::rlimit(100)]
proof fn lemma_i128_bit_facts(a: i128, b: i128, n: u128, c: u128) by (bit_vector)
    ensures
        (a & b) & !a == 0i128,
        (a & b) & !b == 0i128,
        (a & b) & !(a & b) == 0i128,
        a & !(a | b) == 0i128,
        b & !(a | b) == 0i128,
        (a | b) & !a & !b == 0i128,
        (a ^ b) & (a & b) == 0i128,
        ((a ^ b) | (a & b)) == (a | b),
        !a & a == 0i128,
        (!a | a) == !0i128,
        a ^ a == 0i128,
        n < i128::BITS ==> (a << n) == (((a as u128) << n) as i128),
        ((a as u128) as int) == (if a < 0 { a as int + 0x1_0000_0000_0000_0000_0000_0000_0000_0000int } else { a as int }),
        ((c as i128) as int) == (if (c as int) >= 0x8000_0000_0000_0000_0000_0000_0000_0000int { c as int - 0x1_0000_0000_0000_0000_0000_0000_0000_0000int } else { c as int }),
        a >= 0 && n < i128::BITS ==> (a >> n) == (((a as u128) >> n) as i128),
        a < 0 && n < i128::BITS ==> (a >> n) == !((((!a) as u128) >> n) as i128),
        ((!a) as int) == -1 - (a as int),
{
}

/// `&`, `|`, `^` and `!` on `i128` (the component operations of the bitwise
/// operators of `GVec4<i128>`) work on each bit on its own: the AND of `a`
/// and `b` holds exactly the bits set in both, their OR exactly the bits set
/// in either, their exclusive OR exactly the bits set in one but not both,
/// and the complement of `a` exactly the bits not set in `a`. In particular
/// `a ^ a` is zero.
pub proof fn lemma_i128_bitwise(a: i128, b: i128)
    ensures
        a.bits_and(b) & !a == 0i128,
        a.bits_and(b) & !b == 0i128,
        (a & b) & !a.bits_and(b) == 0i128,
        a & !a.bits_or(b) == 0i128,
        b & !a.bits_or(b) == 0i128,
        a.bits_or(b) & !a & !b == 0i128,
        a.bits_xor(b) & (a & b) == 0i128,
        (a.bits_xor(b) | (a & b)) == (a | b),
        a.bits_not() & a == 0i128,
        (a.bits_not() | a) == !0i128,
        a.bits_xor(a) == 0i128,
{
    lemma_i128_bit_facts(a, b, 0u128, 0u128);
}

/// Shifts of `i128` (the component operations of `<<` and `>>` of
/// `GVec4<i128>`) are multiplication and division by a power of two: `a << n`
/// is `a * 2^n` wrapped into the range of `i128`, and `a >> n` is `a / 2^n`
/// rounded toward negative infinity, for every `n` in `0..128`.
pub proof fn lemma_i128_shifts(a: i128, n: i128)
    requires
        0 <= n < i128::BITS,
    ensures
        a.bits_shl(n).spec_val() == spec_wrap::<i128>(a.spec_val() * pow2(n.spec_val() as nat)),
        a.bits_shr(n).spec_val() == a.spec_val() / (pow2(n.spec_val() as nat) as int),
{
    let k = n as u128;
    let p = pow2(n as nat) as int;
    lemma_pow2_pos(n as nat);
    assert(a << n == a << k);
    assert(a >> n == a >> k);
    let u = a as u128;
    lemma_i128_bit_facts(a, a, k, u << k);
    lemma_u128_shl_mod(u, k);
    if a < 0 {
        assert((u as int) * p == 0x1_0000_0000_0000_0000_0000_0000_0000_0000int * p + (a as int) * p) by (nonlinear_arith)
            requires
                u as int == a as int + 0x1_0000_0000_0000_0000_0000_0000_0000_0000int,
        ;
        lemma_mod_multiples_vanish(p, (a as int) * p, 0x1_0000_0000_0000_0000_0000_0000_0000_0000int);
    }
    lemma_signed_crop((a as int) * p, 0x8000_0000_0000_0000_0000_0000_0000_0000int);
    if a >= 0 {
        lemma_u128_shr_is_div(u, k);
        lemma_div_is_ordered_by_denominator(u as int, 1, p);
        lemma_i128_bit_facts(a, a, k, u >> k);
    } else {
        let na = !a;
        let z = na as u128;
        lemma_i128_bit_facts(na, na, k, z);
        lemma_u128_shr_is_div(z, k);
        lemma_div_is_ordered_by_denominator(z as int, 1, p);
        let w = z >> k;
        lemma_i128_bit_facts(a, a, k, w);
        lemma_i128_bit_facts(w as i128, w as i128, k, w);
        lemma_floor_complement(a as int, p);
    }
}

/// Bit-level facts about `isize` that the laws on `isize` rest on.
proof fn lemma_isize_bit_facts(a: isize, b: isize) by (bit_vector)
    ensures
        (a & b) & !a == 0isize,
        (a & b) & !b == 0isize,
        (a & b) & !(a & b) == 0isize,
        a & !(a | b) == 0isize,
        b & !(a | b) == 0isize,
        (a | b) & !a & !b == 0isize,
        (a ^ b) & (a & b) == 0isize,
        ((a ^ b) | (a & b)) == (a | b),
        !a & a == 0isize,
        (!a | a) == !0isize,
        a ^ a == 0isize,
{
}

/// `&`, `|`, `^` and `!` on `isize` (the component operations of the bitwise
/// operators of `GVec4<isize>`) work on each bit on its own: the AND of `a`
/// and `b` holds exactly the bits set in both, their OR exactly the bits set
/// in either, their exclusive OR exactly the bits set in one but not both,
/// and the complement of `a` exactly the bits not set in `a`. In particular
/// `a ^ a` is zero.
pub proof fn lemma_isize_bitwise(a: isize, b: isize)
    ensures
        a.bits_and(b) & !a == 0isize,
        a.bits_and(b) & !b == 0isize,
        (a & b) & !a.bits_and(b) == 0isize,
        a & !a.bits_or(b) == 0isize,
        b & !a.bits_or(b) == 0isize,
        a.bits_or(b) & !a & !b == 0isize,
        a.bits_xor(b) & (a & b) == 0isize,
        (a.bits_xor(b) | (a & b)) == (a | b),
        a.bits_not() & a == 0isize,
        (a.bits_not() | a) == !0isize,
        a.bits_xor(a) == 0isize,
{
    lemma_isize_bit_facts(a, b);
}

} // verus!

