//! Single-precision numbers as IEEE-754 bit patterns.
//!
//! A scalar is a `u32` that holds the binary32 encoding of a number: one sign
//! bit, eight exponent bits, twenty-three fraction bits. Everything in this
//! module is exact integer work on such patterns: classification, the numeric
//! order, the two flavours of minimum and maximum, negation, and the
//! coarsening that the approximate reciprocal applies to a quotient.
//!
//! The order is stated through `order_key`, the sign-and-magnitude reading of
//! a pattern. The module `value` shows that it is the order of the numbers
//! the patterns encode.
use vstd::prelude::*;

verus! {

/// The sign bit.
pub const SIGN_BIT: u32 = 0x8000_0000;

/// Positive infinity. A magnitude above this one encodes a NaN.
pub const INFINITY: u32 = 0x7f80_0000;

/// The number `1.0`.
pub const ONE: u32 = 0x3f80_0000;

/// The smallest magnitude of a normal number, and the weight of the exponent
/// field's lowest bit.
pub const MIN_NORMAL: u32 = 0x0080_0000;

/// How many low patterns `coarsen` folds into one.
pub const COARSE_STEP: u32 = 0x800;

/// The pattern without its sign bit.
pub open spec fn spec_magnitude(b: u32) -> u32 {
    if b >= SIGN_BIT {
        (b - SIGN_BIT) as u32
    } else {
        b
    }
}

/// Whether the sign bit is set. True of `-0.0` and of half the NaNs as well.
pub open spec fn spec_is_negative(b: u32) -> bool {
    b >= SIGN_BIT
}

/// Whether the pattern encodes a NaN.
pub open spec fn spec_is_nan(b: u32) -> bool {
    spec_magnitude(b) > INFINITY
}

/// Whether the pattern encodes a normal number: finite, with a nonzero
/// exponent field.
pub open spec fn is_normal(b: u32) -> bool {
    MIN_NORMAL <= spec_magnitude(b) < INFINITY
}

/// The sign-and-magnitude reading of a pattern. On patterns that are not NaN
/// it grows exactly as the encoded number does, and the two zeros share the
/// key `0`.
pub open spec fn order_key(b: u32) -> int {
    if spec_is_negative(b) {
        -(spec_magnitude(b) as int)
    } else {
        spec_magnitude(b) as int
    }
}

/// The IEEE-754 comparison `a < b`: false as soon as either side is a NaN.
pub open spec fn spec_less_than(a: u32, b: u32) -> bool {
    !spec_is_nan(a) && !spec_is_nan(b) && order_key(a) < order_key(b)
}

/// The IEEE-754 comparison `a == b`: false as soon as either side is a NaN,
/// true of `0.0` and `-0.0`.
pub open spec fn same_number(a: u32, b: u32) -> bool {
    !spec_is_nan(a) && !spec_is_nan(b) && order_key(a) == order_key(b)
}

/// The lane minimum of the vector instruction sets: `a` where `a < b`, and
/// `b` in every other case. So a NaN on either side gives `b`, and of two
/// zeros the second is returned.
pub open spec fn spec_min(a: u32, b: u32) -> u32 {
    if spec_less_than(a, b) {
        a
    } else {
        b
    }
}

/// The lane maximum of the vector instruction sets: `a` where `a > b`, and
/// `b` in every other case.
pub open spec fn spec_max(a: u32, b: u32) -> u32 {
    if spec_less_than(b, a) {
        a
    } else {
        b
    }
}

/// The minimum that passes over a NaN: the other side where one side is a
/// NaN, else `a` where `a < b`, else `b`.
pub open spec fn spec_min_number(a: u32, b: u32) -> u32 {
    if spec_is_nan(b) {
        a
    } else if spec_is_nan(a) {
        b
    } else {
        spec_min(a, b)
    }
}

/// The maximum that passes over a NaN: the other side where one side is a
/// NaN, else `a` where `a > b`, else `b`.
pub open spec fn spec_max_number(a: u32, b: u32) -> u32 {
    if spec_is_nan(b) {
        a
    } else if spec_is_nan(a) {
        b
    } else {
        spec_max(a, b)
    }
}

/// The pattern with its sign bit flipped.
pub open spec fn spec_negate(b: u32) -> u32 {
    if b >= SIGN_BIT {
        (b - SIGN_BIT) as u32
    } else {
        (b + SIGN_BIT) as u32
    }
}

/// The pattern with its eleven lowest fraction bits cleared; a NaN is kept as
/// it is.
pub open spec fn spec_coarsen(b: u32) -> u32 {
    if spec_is_nan(b) {
        b
    } else {
        (b - b % COARSE_STEP) as u32
    }
}

/// Clears the sign bit.
#[verifier::when_used_as_spec(spec_magnitude)]
pub fn magnitude(b: u32) -> (r: u32)
    ensures
        r == spec_magnitude(b),
        r < SIGN_BIT,
{
    if b >= SIGN_BIT {
        b - SIGN_BIT
    } else {
        b
    }
}

/// Tests the sign bit.
#[verifier::when_used_as_spec(spec_is_negative)]
pub fn is_negative(b: u32) -> (r: bool)
    ensures
        r == spec_is_negative(b),
{
    b >= SIGN_BIT
}

/// Tests for a NaN.
#[verifier::when_used_as_spec(spec_is_nan)]
pub fn is_nan(b: u32) -> (r: bool)
    ensures
        r == spec_is_nan(b),
{
    magnitude(b) > INFINITY
}

/// Compares two patterns as the numbers they encode.
#[verifier::when_used_as_spec(spec_less_than)]
pub fn less_than(a: u32, b: u32) -> (r: bool)
    ensures
        r == spec_less_than(a, b),
{
    if is_nan(a) || is_nan(b) {
        return false;
    }
    let ma = magnitude(a);
    let mb = magnitude(b);
    if is_negative(a) {
        if is_negative(b) {
            mb < ma
        } else {
            ma != 0 || mb != 0
        }
    } else {
        if is_negative(b) {
            false
        } else {
            ma < mb
        }
    }
}

/// The lane minimum: `a` where `a < b`, else `b`.
#[verifier::when_used_as_spec(spec_min)]
pub fn min(a: u32, b: u32) -> (r: u32)
    ensures
        r == spec_min(a, b),
{
    if less_than(a, b) {
        a
    } else {
        b
    }
}

/// The lane maximum: `a` where `a > b`, else `b`.
#[verifier::when_used_as_spec(spec_max)]
pub fn max(a: u32, b: u32) -> (r: u32)
    ensures
        r == spec_max(a, b),
{
    if less_than(b, a) {
        a
    } else {
        b
    }
}

/// The minimum of the numbers among `a` and `b`.
#[verifier::when_used_as_spec(spec_min_number)]
pub fn min_number(a: u32, b: u32) -> (r: u32)
    ensures
        r == spec_min_number(a, b),
{
    if is_nan(b) {
        a
    } else if is_nan(a) {
        b
    } else {
        min(a, b)
    }
}

/// The maximum of the numbers among `a` and `b`.
#[verifier::when_used_as_spec(spec_max_number)]
pub fn max_number(a: u32, b: u32) -> (r: u32)
    ensures
        r == spec_max_number(a, b),
{
    if is_nan(b) {
        a
    } else if is_nan(a) {
        b
    } else {
        max(a, b)
    }
}

/// Flips the sign bit, whatever the pattern encodes.
#[verifier::when_used_as_spec(spec_negate)]
pub fn negate(b: u32) -> (r: u32)
    ensures
        r == spec_negate(b),
{
    if b >= SIGN_BIT {
        b - SIGN_BIT
    } else {
        b + SIGN_BIT
    }
}

/// Rounds a number towards zero to twelve fraction bits.
#[verifier::when_used_as_spec(spec_coarsen)]
pub fn coarsen(b: u32) -> (r: u32)
    ensures
        r == spec_coarsen(b),
{
    if is_nan(b) {
        b
    } else {
        b - b % COARSE_STEP
    }
}

/// A minimum or maximum is one of its operands. Where neither operand is a
/// NaN, the minimum is not above and the maximum not below either of them.
pub proof fn lemma_min_max_bounds(a: u32, b: u32)
    ensures
        spec_min(a, b) == a || spec_min(a, b) == b,
        spec_max(a, b) == a || spec_max(a, b) == b,
        !spec_is_nan(a) && !spec_is_nan(b) ==> {
            &&& order_key(spec_min(a, b)) <= order_key(a)
            &&& order_key(spec_min(a, b)) <= order_key(b)
            &&& order_key(spec_max(a, b)) >= order_key(a)
            &&& order_key(spec_max(a, b)) >= order_key(b)
        },
{
}

/// Swapping the operands of a minimum or maximum changes at most which of
/// two equal numbers is returned, as long as neither operand is a NaN.
pub proof fn lemma_min_max_commute(a: u32, b: u32)
    requires
        !spec_is_nan(a),
        !spec_is_nan(b),
    ensures
        same_number(spec_min(a, b), spec_min(b, a)),
        same_number(spec_max(a, b), spec_max(b, a)),
{
}

} // verus!
