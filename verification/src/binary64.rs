//! Real numbers as binary64 bit patterns.
//!
//! A pattern is what `to_bits` gives for a double-precision number: one sign
//! bit, eleven exponent bits, fifty-two fraction bits. The sign of a number
//! and the order of two positive numbers can be read off their patterns as
//! integers, which is all that the decisions of this crate need.
use vstd::prelude::*;

verus! {

/// The bit pattern of the binary64 number `0.0`.
pub const ZERO_BITS: u64 = 0;

/// The bit pattern of the binary64 number `1.0`.
pub const ONE_BITS: u64 = 0x3FF0_0000_0000_0000;

/// The bit pattern of positive infinity, the largest pattern that is a
/// non-negative number; every pattern strictly between it and `SIGN_BIT`
/// is a NaN.
pub const INFINITY_BITS: u64 = 0x7FF0_0000_0000_0000;

/// The sign bit: every pattern at or above it is negative (or a negative NaN).
pub const SIGN_BIT: u64 = 0x8000_0000_0000_0000;

/// The least pattern of a normal number, `2^52`: the exponent field of a
/// pattern is the pattern divided by it, the fraction field the remainder.
pub const HIDDEN_BIT: u64 = 0x0010_0000_0000_0000;

/// The pattern of negative infinity, the largest pattern of a negative number.
pub const NEGATIVE_INFINITY_BITS: u64 = 0xFFF0_0000_0000_0000;

/// Whether `bits` is the pattern of a number strictly above zero, positive
/// infinity included. Among such patterns the order of the integers is the
/// order of the numbers.
pub open spec fn is_positive(bits: u64) -> bool {
    0 < bits <= INFINITY_BITS
}

/// Whether `bits` is the pattern of a number strictly below zero.
pub open spec fn is_negative(bits: u64) -> bool {
    SIGN_BIT < bits <= NEGATIVE_INFINITY_BITS
}

/// Whether `bits` is the pattern of a number at or above zero; both zeros
/// are, and no NaN is.
pub open spec fn is_non_negative(bits: u64) -> bool {
    bits <= INFINITY_BITS || bits == SIGN_BIT
}

/// Whether `bits` is the pattern of a number that is neither infinite nor a NaN.
pub open spec fn is_finite(bits: u64) -> bool {
    bits % SIGN_BIT < INFINITY_BITS
}

/// Decides `is_positive`.
pub fn positive(bits: u64) -> (r: bool)
    ensures
        r == is_positive(bits),
{
    0 < bits && bits <= INFINITY_BITS
}

/// Decides `is_negative`.
pub fn negative(bits: u64) -> (r: bool)
    ensures
        r == is_negative(bits),
{
    SIGN_BIT < bits && bits <= NEGATIVE_INFINITY_BITS
}

/// Decides `is_non_negative`.
pub fn non_negative(bits: u64) -> (r: bool)
    ensures
        r == is_non_negative(bits),
{
    bits <= INFINITY_BITS || bits == SIGN_BIT
}

/// Decides `is_finite`.
pub fn finite(bits: u64) -> (r: bool)
    ensures
        r == is_finite(bits),
{
    bits % SIGN_BIT < INFINITY_BITS
}

/// The significand of a normal pattern: `2^52` plus its fraction field.
pub open spec fn significand(bits: u64) -> nat {
    (HIDDEN_BIT + bits % HIDDEN_BIT) as nat
}

/// The binary point of a normal pattern below `1.0`: the number it stands
/// for is `significand(bits) / 2^downshift(bits)`.
pub open spec fn downshift(bits: u64) -> nat {
    (1075 - bits / HIDDEN_BIT) as nat
}

} // verus!
