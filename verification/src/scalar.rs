//! Single-precision IEEE 754 numbers, held as their 32-bit patterns.
//!
//! Angles, distances and coordinates reach this crate as bit patterns. Nothing here does
//! arithmetic on them: the solvers only need to know whether a number is defined, on
//! which side of zero it lies, how two numbers compare, and how to flip a sign. All of
//! that can be read off the bits, and is proved against the exact value a pattern
//! denotes.

use vstd::arithmetic::power2::{lemma_pow2_pos, lemma_pow2_strictly_increases, lemma_pow2_unfold, pow2};
use vstd::prelude::*;

verus! {

/// The sign bit.
pub const SIGN: u32 = 0x8000_0000;

/// Positive infinity: every exponent bit set, no fraction bit.
pub const INFINITY: u32 = 0x7f80_0000;

/// The quiet NaN used wherever a number is undefined.
pub const NAN: u32 = 0x7fc0_0000;

/// Positive zero.
pub const ZERO: u32 = 0;

/// Weight of the implicit leading bit of a normal number's significand.
pub const HIDDEN_BIT: u32 = 0x80_0000;

/// The pattern with its sign bit cleared.
pub open spec fn unsigned(bits: u32) -> u32 {
    if bits >= SIGN {
        (bits - SIGN) as u32
    } else {
        bits
    }
}

/// Whether the sign bit is set. This is true of `-0.0` and of some NaNs as well.
pub open spec fn sign_negative(bits: u32) -> bool {
    bits >= SIGN
}

/// Not a number: exponent all ones and a non-zero fraction.
pub open spec fn is_nan_spec(bits: u32) -> bool {
    unsigned(bits) > INFINITY
}

/// Zero, subnormal or normal: neither infinite nor NaN.
pub open spec fn is_finite_spec(bits: u32) -> bool {
    unsigned(bits) < INFINITY
}

/// The biased exponent field.
pub open spec fn exponent(bits: u32) -> nat {
    (unsigned(bits) / HIDDEN_BIT) as nat
}

/// The fraction field.
pub open spec fn fraction(bits: u32) -> nat {
    (unsigned(bits) % HIDDEN_BIT) as nat
}

/// The absolute value a pattern denotes, counted in units of 2^-149 (the smallest
/// subnormal), so that every finite number is a whole count.
///
/// Infinity is given the count that the next exponent would have; it is larger than
/// that of any finite number. For a NaN the count means nothing.
pub open spec fn magnitude(bits: u32) -> int {
    if exponent(bits) == 0 {
        fraction(bits) as int
    } else {
        (HIDDEN_BIT + fraction(bits)) * pow2((exponent(bits) - 1) as nat)
    }
}

/// The signed value a pattern denotes, in units of 2^-149. Both zeros denote 0.
pub open spec fn value(bits: u32) -> int {
    if sign_negative(bits) {
        -magnitude(bits)
    } else {
        magnitude(bits)
    }
}

/// The pattern of the number with the opposite sign.
pub open spec fn negated(bits: u32) -> u32 {
    if bits >= SIGN {
        (bits - SIGN) as u32
    } else {
        (bits + SIGN) as u32
    }
}

/// The comparison `a < b` of two numbers: false as soon as one of them is a NaN, and
/// otherwise the order of the values they denote.
pub open spec fn less_than_spec(a: u32, b: u32) -> bool {
    !is_nan_spec(a) && !is_nan_spec(b) && value(a) < value(b)
}

/// The comparison `bits < 0.0`.
pub open spec fn is_negative_spec(bits: u32) -> bool {
    !is_nan_spec(bits) && value(bits) < 0
}

/// Among patterns without a sign bit, a larger pattern denotes a larger magnitude.
pub proof fn lemma_magnitude_increases(a: u32, b: u32)
    requires
        a < b < SIGN,
    ensures
        magnitude(a) < magnitude(b),
{
    let ea: nat = exponent(a);
    let eb: nat = exponent(b);
    let fa: nat = fraction(a);
    let fb: nat = fraction(b);
    if ea == eb {
        if ea > 0 {
            let p: nat = pow2((ea - 1) as nat);
            lemma_pow2_pos((ea - 1) as nat);
            assert((HIDDEN_BIT + fa) * p < (HIDDEN_BIT + fb) * p) by (nonlinear_arith)
                requires
                    fa < fb,
                    p > 0,
            ;
        }
    } else {
        let q: nat = pow2((eb - 1) as nat);
        lemma_pow2_pos((eb - 1) as nat);
        assert((HIDDEN_BIT + fb) * q >= HIDDEN_BIT * q >= HIDDEN_BIT) by (nonlinear_arith)
            requires
                q >= 1,
        ;
        if ea > 0 {
            let p: nat = pow2((ea - 1) as nat);
            lemma_pow2_pos((ea - 1) as nat);
            lemma_pow2_unfold(ea);
            if ea < eb - 1 {
                lemma_pow2_strictly_increases(ea, (eb - 1) as nat);
            }
            assert((HIDDEN_BIT + fa) * p < HIDDEN_BIT * (2 * p)) by (nonlinear_arith)
                requires
                    fa < HIDDEN_BIT,
                    p > 0,
            ;
            assert(HIDDEN_BIT * (2 * p) <= HIDDEN_BIT * q) by (nonlinear_arith)
                requires
                    2 * p <= q,
            ;
        }
    }
}

/// Only the two zeros denote the value 0.
pub proof fn lemma_zero_value(bits: u32)
    ensures
        value(bits) == 0 <==> unsigned(bits) == 0,
{
    if unsigned(bits) > 0 {
        lemma_magnitude_increases(0, unsigned(bits));
    }
}

/// Flipping the sign negates the value, keeps the magnitude and undoes itself.
pub proof fn lemma_negated(bits: u32)
    ensures
        unsigned(negated(bits)) == unsigned(bits),
        sign_negative(negated(bits)) != sign_negative(bits),
        magnitude(negated(bits)) == magnitude(bits),
        value(negated(bits)) == -value(bits),
        is_nan_spec(negated(bits)) == is_nan_spec(bits),
        is_finite_spec(negated(bits)) == is_finite_spec(bits),
        negated(negated(bits)) == bits,
{
}

/// Tells whether `bits` is a NaN.
#[verifier::when_used_as_spec(is_nan_spec)]
pub fn is_nan(bits: u32) -> (r: bool)
    ensures
        r == is_nan_spec(bits),
{
    assert((bits & 0x7fff_ffff) == unsigned(bits)) by (bit_vector);
    (bits & 0x7fff_ffff) > INFINITY
}

/// Tells whether `bits` is neither infinite nor a NaN.
#[verifier::when_used_as_spec(is_finite_spec)]
pub fn is_finite(bits: u32) -> (r: bool)
    ensures
        r == is_finite_spec(bits),
{
    assert((bits & 0x7fff_ffff) == unsigned(bits)) by (bit_vector);
    (bits & 0x7fff_ffff) < INFINITY
}

/// The number with its sign flipped. This is exact for every pattern: a NaN stays a
/// NaN, an infinity stays infinite and a zero stays zero.
#[verifier::when_used_as_spec(negated)]
pub fn negate(bits: u32) -> (r: u32)
    ensures
        r == negated(bits),
        value(r) == -value(bits),
{
    assert(bits ^ 0x8000_0000 == negated(bits)) by (bit_vector);
    bits ^ SIGN
}

/// Compares two numbers as `a < b` does. In particular `-0.0 < 0.0` is false.
#[verifier::when_used_as_spec(less_than_spec)]
pub fn less_than(a: u32, b: u32) -> (r: bool)
    ensures
        r == less_than_spec(a, b),
{
    if is_nan(a) || is_nan(b) {
        return false;
    }
    assert((a & 0x7fff_ffff) == unsigned(a)) by (bit_vector);
    assert((b & 0x7fff_ffff) == unsigned(b)) by (bit_vector);
    let ua: u32 = a & 0x7fff_ffff;
    let ub: u32 = b & 0x7fff_ffff;
    proof {
        if ua < ub {
            lemma_magnitude_increases(ua, ub);
        }
        if ub < ua {
            lemma_magnitude_increases(ub, ua);
        }
        lemma_zero_value(a);
        lemma_zero_value(b);
    }
    if a >= SIGN {
        if b >= SIGN {
            ub < ua
        } else {
            ua != 0 || ub != 0
        }
    } else {
        if b >= SIGN {
            false
        } else {
            ua < ub
        }
    }
}

/// Tells whether the number is defined and lies strictly below zero.
#[verifier::when_used_as_spec(is_negative_spec)]
pub fn is_negative(bits: u32) -> (r: bool)
    ensures
        r == is_negative_spec(bits),
{
    less_than(bits, ZERO)
}

} // verus!
