//! The IEEE-754 binary64 encoding: one sign bit, eleven exponent bits and
//! fifty-two fraction bits, most significant first.

use vstd::prelude::*;
use vstd::arithmetic::power2::{lemma2_to64_rest, lemma_pow2_adds, pow2};

verus! {

/// The sign bit, alone.
pub const SIGN_BIT: u64 = 0x8000_0000_0000_0000;

/// Positive infinity: every exponent bit set, no fraction bit.
pub const INFINITY: u64 = 0x7FF0_0000_0000_0000;

/// Positive zero.
pub const ZERO: u64 = 0;

/// One: a biased exponent of 1023 and an empty fraction.
pub const ONE: u64 = 0x3FF0_0000_0000_0000;

/// The lowest exponent bit, alone: two to the power 52, the number of
/// fractions.
pub const FRACTIONS: u64 = 0x0010_0000_0000_0000;

/// Whether the sign bit is set. This holds of negative zero, of negative
/// infinity and of half of the NaN encodings too.
pub open spec fn sign_negative(bits: u64) -> bool {
    bits >= SIGN_BIT
}

/// The encoding with its sign bit cleared.
pub open spec fn magnitude(bits: u64) -> u64 {
    if sign_negative(bits) {
        (bits - SIGN_BIT) as u64
    } else {
        bits
    }
}

/// Whether the encoding is a NaN: every exponent bit set and some fraction
/// bit set, whatever the sign.
pub open spec fn nan(bits: u64) -> bool {
    magnitude(bits) > INFINITY
}

/// Whether the encoding stands for a number: a zero, a subnormal or a normal
/// value, of either sign.
pub open spec fn finite(bits: u64) -> bool {
    magnitude(bits) < INFINITY
}

/// The eleven exponent bits, as a number.
pub open spec fn biased_exponent(bits: u64) -> nat {
    (magnitude(bits) / FRACTIONS) as nat
}

/// The fifty-two fraction bits, as a number.
pub open spec fn fraction(bits: u64) -> nat {
    (magnitude(bits) % FRACTIONS) as nat
}

/// The number that a finite encoding stands for, counted in units of two to
/// the power -1074. That unit is the least positive binary64 value, and
/// every finite one is a whole multiple of it. With `e` the biased exponent
/// and `f` the fraction, a subnormal value (`e` zero) is `f` units, and a
/// normal one is `(1 + f / 2^52) * 2^(e - 1023)`, which is
/// `(2^52 + f) * 2^(e - 1)` units.
pub open spec fn scaled_value(bits: u64) -> int
    recommends
        finite(bits),
{
    let e = biased_exponent(bits);
    let f = fraction(bits);
    let units: int = if e == 0 {
        f as int
    } else {
        (FRACTIONS + f) * pow2((e - 1) as nat)
    };
    if sign_negative(bits) {
        -units
    } else {
        units
    }
}

/// The encoding of the opposite value: the sign bit flipped, the other
/// sixty-three bits kept.
pub open spec fn negated(bits: u64) -> u64 {
    if sign_negative(bits) {
        (bits - SIGN_BIT) as u64
    } else {
        (bits + SIGN_BIT) as u64
    }
}

/// Flips the sign bit. This is what unary minus does to a binary64 value,
/// NaN and the zeros included.
pub fn negate(bits: u64) -> (r: u64)
    ensures
        r == negated(bits),
{
    assert(bits ^ 0x8000_0000_0000_0000 == if bits >= 0x8000_0000_0000_0000u64 {
        (bits - 0x8000_0000_0000_0000) as u64
    } else {
        (bits + 0x8000_0000_0000_0000) as u64
    }) by (bit_vector);
    bits ^ SIGN_BIT
}

/// Whether the sign bit is set.
pub fn is_sign_negative(bits: u64) -> (r: bool)
    ensures
        r == sign_negative(bits),
{
    bits >= SIGN_BIT
}

/// Whether the encoding is a NaN.
pub fn is_nan(bits: u64) -> (r: bool)
    ensures
        r == nan(bits),
{
    assert(bits & 0x7FFF_FFFF_FFFF_FFFF == if bits >= 0x8000_0000_0000_0000u64 {
        (bits - 0x8000_0000_0000_0000) as u64
    } else {
        bits
    }) by (bit_vector);
    bits & 0x7FFF_FFFF_FFFF_FFFF > INFINITY
}

/// Negation changes the sign and nothing else: the magnitude stays, so a
/// NaN stays a NaN and an infinity an infinity, a finite value goes to the
/// number opposite to it, and negating again gives the encoding back.
pub proof fn negated_is_the_opposite(bits: u64)
    ensures
        sign_negative(negated(bits)) != sign_negative(bits),
        magnitude(negated(bits)) == magnitude(bits),
        nan(negated(bits)) == nan(bits),
        finite(negated(bits)) == finite(bits),
        finite(bits) ==> scaled_value(negated(bits)) == -scaled_value(bits),
        negated(negated(bits)) == bits,
{
}

/// `ZERO` stands for zero, with the sign bit clear.
pub proof fn zero_stands_for_zero()
    ensures
        finite(ZERO),
        !sign_negative(ZERO),
        scaled_value(ZERO) == 0,
{
}

/// `ONE` stands for one: 2^1074 units of 2^-1074.
pub proof fn one_stands_for_one()
    ensures
        finite(ONE),
        !sign_negative(ONE),
        scaled_value(ONE) == pow2(1074),
{
    lemma2_to64_rest();
    lemma_pow2_adds(52, 1022);
}

} // verus!
