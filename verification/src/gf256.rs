//! Arithmetic in the field GF(2^8) with the reduction polynomial
//! x^8 + x^4 + x^3 + x + 1, on which byte-wise secret sharing works.
//!
//! A byte stands for the polynomial whose coefficients are its bits. Addition
//! and subtraction are both XOR.

use vstd::prelude::*;

verus! {

/// The product of `a` and the polynomial `x`.
pub open spec fn xtime(a: u8) -> u8 {
    (a << 1) ^ (if a & 0x80 != 0 { 0x1bu8 } else { 0u8 })
}

/// One step of Horner's rule: `acc * x`, plus `a` where `b` has the bit `bit`.
pub open spec fn mul_step(acc: u8, a: u8, b: u8, bit: u8) -> u8 {
    xtime(acc) ^ (if b & bit != 0 { a } else { 0u8 })
}

/// The product of `a` and `b` in the field: Horner's rule over the bits of
/// `b`, from the highest down.
#[verifier::opaque]
pub open spec fn gf_mul(a: u8, b: u8) -> u8 {
    let s7 = mul_step(0u8, a, b, 0x80u8);
    let s6 = mul_step(s7, a, b, 0x40u8);
    let s5 = mul_step(s6, a, b, 0x20u8);
    let s4 = mul_step(s5, a, b, 0x10u8);
    let s3 = mul_step(s4, a, b, 0x08u8);
    let s2 = mul_step(s3, a, b, 0x04u8);
    let s1 = mul_step(s2, a, b, 0x02u8);
    mul_step(s1, a, b, 0x01u8)
}

/// The multiplicative inverse of a nonzero `a`, as the power `a^254`; 0 for 0.
pub open spec fn gf_inv(a: u8) -> u8 {
    let a2 = gf_mul(a, a);
    let a4 = gf_mul(a2, a2);
    let a8 = gf_mul(a4, a4);
    let a16 = gf_mul(a8, a8);
    let a32 = gf_mul(a16, a16);
    let a64 = gf_mul(a32, a32);
    let a128 = gf_mul(a64, a64);
    let a6 = gf_mul(a4, a2);
    let a14 = gf_mul(a8, a6);
    let a30 = gf_mul(a16, a14);
    let a62 = gf_mul(a32, a30);
    let a126 = gf_mul(a64, a62);
    gf_mul(a128, a126)
}

/// The quotient `a / b`; 0 where `b` is 0.
pub open spec fn gf_div(a: u8, b: u8) -> u8 {
    gf_mul(a, gf_inv(b))
}

/// Multiplies by `x`.
fn xtime_exec(a: u8) -> (r: u8)
    ensures
        r == xtime(a),
{
    (a << 1) ^ (if a & 0x80 != 0 { 0x1bu8 } else { 0u8 })
}

/// Takes one step of Horner's rule.
fn mul_step_exec(acc: u8, a: u8, b: u8, bit: u8) -> (r: u8)
    ensures
        r == mul_step(acc, a, b, bit),
{
    xtime_exec(acc) ^ (if b & bit != 0 { a } else { 0u8 })
}

/// Multiplies two field elements.
pub fn multiply(a: u8, b: u8) -> (r: u8)
    ensures
        r == gf_mul(a, b),
{
    proof {
        reveal(gf_mul);
    }
    let s7 = mul_step_exec(0u8, a, b, 0x80u8);
    let s6 = mul_step_exec(s7, a, b, 0x40u8);
    let s5 = mul_step_exec(s6, a, b, 0x20u8);
    let s4 = mul_step_exec(s5, a, b, 0x10u8);
    let s3 = mul_step_exec(s4, a, b, 0x08u8);
    let s2 = mul_step_exec(s3, a, b, 0x04u8);
    let s1 = mul_step_exec(s2, a, b, 0x02u8);
    mul_step_exec(s1, a, b, 0x01u8)
}

/// Inverts a field element; the inverse of 0 is taken to be 0.
pub fn invert(a: u8) -> (r: u8)
    ensures
        r == gf_inv(a),
        a != 0 ==> gf_mul(a, r) == 1,
{
    proof {
        lemma_inverse(a);
    }
    let a2 = multiply(a, a);
    let a4 = multiply(a2, a2);
    let a8 = multiply(a4, a4);
    let a16 = multiply(a8, a8);
    let a32 = multiply(a16, a16);
    let a64 = multiply(a32, a32);
    let a128 = multiply(a64, a64);
    let a6 = multiply(a4, a2);
    let a14 = multiply(a8, a6);
    let a30 = multiply(a16, a14);
    let a62 = multiply(a32, a30);
    let a126 = multiply(a64, a62);
    multiply(a128, a126)
}

/// Divides `a` by `b`; a quotient by 0 is taken to be 0.
pub fn divide(a: u8, b: u8) -> (r: u8)
    ensures
        r == gf_div(a, b),
        b != 0 ==> gf_mul(r, b) == a,
{
    proof {
        if b != 0 {
            lemma_div_cancels(a, b);
        }
    }
    multiply(a, invert(b))
}

/// Multiplication commutes.
pub proof fn lemma_mul_commutative(a: u8, b: u8)
    by (bit_vector)
    ensures
        gf_mul(a, b) == gf_mul(b, a),
{
}

/// Multiplication distributes over addition in its second argument.
pub proof fn lemma_mul_distributive(a: u8, b: u8, c: u8)
    by (bit_vector)
    ensures
        gf_mul(a, b ^ c) == gf_mul(a, b) ^ gf_mul(a, c),
{
}

/// Multiplication distributes over addition in its first argument.
pub proof fn lemma_mul_distributive_left(a: u8, b: u8, c: u8)
    ensures
        gf_mul(a ^ b, c) == gf_mul(a, c) ^ gf_mul(b, c),
{
    lemma_mul_commutative(a ^ b, c);
    lemma_mul_distributive(c, a, b);
    lemma_mul_commutative(c, a);
    lemma_mul_commutative(c, b);
}

/// 1 is the unit and 0 annihilates.
pub proof fn lemma_mul_unit_zero(a: u8)
    by (bit_vector)
    ensures
        gf_mul(a, 1) == a,
        gf_mul(1, a) == a,
        gf_mul(a, 0) == 0,
        gf_mul(0, a) == 0,
{
}

/// Multiplying a product by `x` is multiplying its second factor by `x`.
proof fn lemma_xtime_passes_through(a: u8, b: u8)
    by (bit_vector)
    ensures
        xtime(gf_mul(a, b)) == gf_mul(a, xtime(b)),
{
}

/// Multiplying by a power of `x` is multiplying by `x` as many times.
proof fn lemma_mul_by_power(a: u8)
    by (bit_vector)
    ensures
        gf_mul(a, 1) == a,
        gf_mul(a, 2) == xtime(a),
        gf_mul(a, 4) == xtime(xtime(a)),
        gf_mul(a, 8) == xtime(xtime(xtime(a))),
        gf_mul(a, 16) == xtime(xtime(xtime(xtime(a)))),
        gf_mul(a, 32) == xtime(xtime(xtime(xtime(xtime(a))))),
        gf_mul(a, 64) == xtime(xtime(xtime(xtime(xtime(xtime(a)))))),
        gf_mul(a, 128) == xtime(xtime(xtime(xtime(xtime(xtime(xtime(a))))))),
{
}

/// Associativity where the third factor is a power of `x`.
proof fn lemma_associative_on_power(a: u8, b: u8, c: u8)
    requires
        c == 1 || c == 2 || c == 4 || c == 8 || c == 16 || c == 32 || c == 64 || c == 128,
    ensures
        gf_mul(gf_mul(a, b), c) == gf_mul(a, gf_mul(b, c)),
{
    lemma_mul_by_power(gf_mul(a, b));
    lemma_mul_by_power(b);
    let b1 = xtime(b);
    let b2 = xtime(b1);
    let b3 = xtime(b2);
    let b4 = xtime(b3);
    let b5 = xtime(b4);
    let b6 = xtime(b5);
    lemma_xtime_passes_through(a, b);
    lemma_xtime_passes_through(a, b1);
    lemma_xtime_passes_through(a, b2);
    lemma_xtime_passes_through(a, b3);
    lemma_xtime_passes_through(a, b4);
    lemma_xtime_passes_through(a, b5);
    lemma_xtime_passes_through(a, b6);
}

/// Associativity where the third factor is one bit of a byte.
proof fn lemma_associative_on_bit(a: u8, b: u8, c: u8, bit: u8)
    requires
        bit == 1 || bit == 2 || bit == 4 || bit == 8 || bit == 16 || bit == 32 || bit == 64 || bit
            == 128,
    ensures
        gf_mul(gf_mul(a, b), c & bit) == gf_mul(a, gf_mul(b, c & bit)),
{
    assert((c & bit) == 0 || (c & bit) == bit) by (bit_vector)
        requires
            bit == 1 || bit == 2 || bit == 4 || bit == 8 || bit == 16 || bit == 32 || bit == 64
                || bit == 128,
    ;
    if (c & bit) == 0 {
        lemma_mul_unit_zero(gf_mul(a, b));
        lemma_mul_unit_zero(b);
        lemma_mul_unit_zero(a);
    } else {
        lemma_associative_on_power(a, b, bit);
    }
}

/// Associativity carries over to the sum of two third factors.
proof fn lemma_associative_on_sum(a: u8, b: u8, c: u8, d: u8)
    requires
        gf_mul(gf_mul(a, b), c) == gf_mul(a, gf_mul(b, c)),
        gf_mul(gf_mul(a, b), d) == gf_mul(a, gf_mul(b, d)),
    ensures
        gf_mul(gf_mul(a, b), c ^ d) == gf_mul(a, gf_mul(b, c ^ d)),
{
    lemma_mul_distributive(gf_mul(a, b), c, d);
    lemma_mul_distributive(b, c, d);
    lemma_mul_distributive(a, gf_mul(b, c), gf_mul(b, d));
}

/// Multiplication is associative.
pub proof fn lemma_mul_associative(a: u8, b: u8, c: u8)
    ensures
        gf_mul(gf_mul(a, b), c) == gf_mul(a, gf_mul(b, c)),
{
    let c0 = c & 1;
    let c1 = c0 ^ (c & 2);
    let c2 = c1 ^ (c & 4);
    let c3 = c2 ^ (c & 8);
    let c4 = c3 ^ (c & 16);
    let c5 = c4 ^ (c & 32);
    let c6 = c5 ^ (c & 64);
    let c7 = c6 ^ (c & 128);
    assert(c == (c & 1) ^ (c & 2) ^ (c & 4) ^ (c & 8) ^ (c & 16) ^ (c & 32) ^ (c & 64) ^ (c & 128))
        by (bit_vector);
    assert(c7 == c);
    lemma_associative_on_bit(a, b, c, 1);
    lemma_associative_on_bit(a, b, c, 2);
    lemma_associative_on_bit(a, b, c, 4);
    lemma_associative_on_bit(a, b, c, 8);
    lemma_associative_on_bit(a, b, c, 16);
    lemma_associative_on_bit(a, b, c, 32);
    lemma_associative_on_bit(a, b, c, 64);
    lemma_associative_on_bit(a, b, c, 128);
    lemma_associative_on_sum(a, b, c0, c & 2);
    lemma_associative_on_sum(a, b, c1, c & 4);
    lemma_associative_on_sum(a, b, c2, c & 8);
    lemma_associative_on_sum(a, b, c3, c & 16);
    lemma_associative_on_sum(a, b, c4, c & 32);
    lemma_associative_on_sum(a, b, c5, c & 64);
    lemma_associative_on_sum(a, b, c6, c & 128);
}

/// Every nonzero element times its inverse is 1.
pub proof fn lemma_inverse(a: u8)
    ensures
        a != 0 ==> gf_mul(a, gf_inv(a)) == 1,
        a != 0 ==> gf_mul(gf_inv(a), a) == 1,
        a != 0 ==> gf_inv(a) != 0,
{
    let a2 = gf_mul(a, a);
    let a4 = gf_mul(a2, a2);
    let a8 = gf_mul(a4, a4);
    let a16 = gf_mul(a8, a8);
    let a32 = gf_mul(a16, a16);
    let a64 = gf_mul(a32, a32);
    let a128 = gf_mul(a64, a64);
    let a6 = gf_mul(a4, a2);
    let a14 = gf_mul(a8, a6);
    let a30 = gf_mul(a16, a14);
    let a62 = gf_mul(a32, a30);
    let a126 = gf_mul(a64, a62);
    let a254 = gf_mul(a128, a126);
    assert(a != 0 ==> gf_mul(a, a254) == 1 && a254 != 0) by (bit_vector)
        requires
            a2 == gf_mul(a, a),
            a4 == gf_mul(a2, a2),
            a8 == gf_mul(a4, a4),
            a16 == gf_mul(a8, a8),
            a32 == gf_mul(a16, a16),
            a64 == gf_mul(a32, a32),
            a128 == gf_mul(a64, a64),
            a6 == gf_mul(a4, a2),
            a14 == gf_mul(a8, a6),
            a30 == gf_mul(a16, a14),
            a62 == gf_mul(a32, a30),
            a126 == gf_mul(a64, a62),
            a254 == gf_mul(a128, a126),
    ;
    lemma_mul_commutative(a, a254);
}

/// Dividing and multiplying by the same nonzero element cancel.
pub proof fn lemma_div_cancels(a: u8, b: u8)
    requires
        b != 0,
    ensures
        gf_mul(gf_div(a, b), b) == a,
        gf_div(gf_mul(a, b), b) == a,
        gf_div(b, b) == 1,
{
    lemma_inverse(b);
    lemma_mul_associative(a, gf_inv(b), b);
    lemma_mul_associative(a, b, gf_inv(b));
    lemma_mul_unit_zero(a);
}

} // verus!
