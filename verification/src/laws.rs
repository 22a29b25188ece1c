//! What holds of the arithmetic whatever unit does the rounding, and what
//! holds once the unit is known to behave.
//!
//! The contracts of `arith` relate a result to the answers of the scalar
//! unit. The first group of laws shows that this fixes the result as soon as
//! the unit is deterministic. The second group carries algebraic laws of the
//! scalar operations over to the vector operations: they are stated for
//! units whose scalar operations obey the law in question, since nothing is
//! assumed of a unit otherwise. Those laws are stated up to the payload of a
//! NaN, which IEEE-754 leaves open: two answers are alike if they are the
//! same pattern or both NaN.
use crate::arith::{
    cross_of, difference_of, divided_by, dot_of, dot_steps, magnitude_of, magnitude_steps,
    normalize_steps, normalized_of, product_difference, product_difference_steps, product_of,
    quotient_of, reciprocal_of, reciprocal_steps, scaled_by, sum_of,
};
use crate::bits::{is_normal, same_number, spec_is_nan, spec_negate};
use crate::fpu::{deterministic, yields, ScalarOp};
use crate::value::{close_below, lemma_coarsen_error};
use crate::vector::Components;
use vstd::prelude::*;

verus! {

/// `r` and `s` are the same pattern, or both are NaN.
pub open spec fn alike(r: u32, s: u32) -> bool {
    r == s || (spec_is_nan(r) && spec_is_nan(s))
}

/// `r` and `s` are opposite numbers, or both are NaN. The two zeros are
/// opposite to each other and each to itself.
pub open spec fn opposite(r: u32, s: u32) -> bool {
    (spec_is_nan(r) && spec_is_nan(s)) || same_number(r, spec_negate(s))
}

/// The same relation in each component.
pub open spec fn all_alike(r: Components, s: Components) -> bool {
    alike(r.x, s.x) && alike(r.y, s.y) && alike(r.z, s.z)
}

/// The same relation in each component.
pub open spec fn all_opposite(r: Components, s: Components) -> bool {
    opposite(r.x, s.x) && opposite(r.y, s.y) && opposite(r.z, s.z)
}

/// The unit's addition does not depend on the order of its operands: an
/// answer to `p + q` and an answer to `q + p` are alike.
pub open spec fn addition_commutes<F: Fn(ScalarOp) -> u32>(fpu: &F) -> bool {
    forall|p: u32, q: u32, r: u32, s: u32|
        #[trigger] yields(fpu, ScalarOp::Add(p, q), r) && #[trigger] yields(
            fpu,
            ScalarOp::Add(q, p),
            s,
        ) ==> alike(r, s)
}

/// The unit's multiplication does not depend on the order of its operands:
/// an answer to `p * q` and an answer to `q * p` are alike.
pub open spec fn multiplication_commutes<F: Fn(ScalarOp) -> u32>(fpu: &F) -> bool {
    forall|p: u32, q: u32, r: u32, s: u32|
        #[trigger] yields(fpu, ScalarOp::Mul(p, q), r) && #[trigger] yields(
            fpu,
            ScalarOp::Mul(q, p),
            s,
        ) ==> alike(r, s)
}

/// Swapping the operands of the unit's subtraction gives the opposite
/// number: an answer to `p - q` and an answer to `q - p` are opposite.
pub open spec fn subtraction_reverses<F: Fn(ScalarOp) -> u32>(fpu: &F) -> bool {
    forall|p: u32, q: u32, r: u32, s: u32|
        #[trigger] yields(fpu, ScalarOp::Sub(p, q), r) && #[trigger] yields(
            fpu,
            ScalarOp::Sub(q, p),
            s,
        ) ==> opposite(r, s)
}

/// The unit's subtraction answers a NaN operand with a NaN.
pub open spec fn subtraction_keeps_nan<F: Fn(ScalarOp) -> u32>(fpu: &F) -> bool {
    forall|p: u32, q: u32, r: u32| #[trigger]
        yields(fpu, ScalarOp::Sub(p, q), r) && (spec_is_nan(p) || spec_is_nan(q)) ==> spec_is_nan(
            r,
        )
}

/// With a deterministic unit two sums of the same vectors are the same.
pub proof fn lemma_sum_unique<F: Fn(ScalarOp) -> u32>(
    fpu: &F,
    a: Components,
    b: Components,
    r: Components,
    s: Components,
)
    requires
        deterministic(fpu),
        sum_of(fpu, a, b, r),
        sum_of(fpu, a, b, s),
    ensures
        r == s,
{
}

/// With a deterministic unit two differences of the same vectors are the
/// same.
pub proof fn lemma_difference_unique<F: Fn(ScalarOp) -> u32>(
    fpu: &F,
    a: Components,
    b: Components,
    r: Components,
    s: Components,
)
    requires
        deterministic(fpu),
        difference_of(fpu, a, b, r),
        difference_of(fpu, a, b, s),
    ensures
        r == s,
{
}

/// With a deterministic unit two lane-wise products of the same vectors are
/// the same.
pub proof fn lemma_product_unique<F: Fn(ScalarOp) -> u32>(
    fpu: &F,
    a: Components,
    b: Components,
    r: Components,
    s: Components,
)
    requires
        deterministic(fpu),
        product_of(fpu, a, b, r),
        product_of(fpu, a, b, s),
    ensures
        r == s,
{
}

/// With a deterministic unit two lane-wise quotients of the same vectors are
/// the same.
pub proof fn lemma_quotient_unique<F: Fn(ScalarOp) -> u32>(
    fpu: &F,
    a: Components,
    b: Components,
    r: Components,
    s: Components,
)
    requires
        deterministic(fpu),
        quotient_of(fpu, a, b, r),
        quotient_of(fpu, a, b, s),
    ensures
        r == s,
{
}

/// With a deterministic unit two dot products of the same vectors are the
/// same.
pub proof fn lemma_dot_unique<F: Fn(ScalarOp) -> u32>(
    fpu: &F,
    a: Components,
    b: Components,
    r: u32,
    s: u32,
)
    requires
        deterministic(fpu),
        dot_of(fpu, a, b, r),
        dot_of(fpu, a, b, s),
    ensures
        r == s,
{
    let (products_r, partial_r) = choose|p: Components, t: u32| dot_steps(fpu, a, b, p, t, r);
    let (products_s, partial_s) = choose|p: Components, t: u32| dot_steps(fpu, a, b, p, t, s);
    lemma_product_unique(fpu, a, b, products_r, products_s);
    assert(partial_r == partial_s);
}

/// With a deterministic unit two magnitudes of the same vector are the same.
pub proof fn lemma_magnitude_unique<F: Fn(ScalarOp) -> u32>(
    fpu: &F,
    a: Components,
    r: u32,
    s: u32,
)
    requires
        deterministic(fpu),
        magnitude_of(fpu, a, r),
        magnitude_of(fpu, a, s),
    ensures
        r == s,
{
    let m1 = choose|m: u32| magnitude_steps(fpu, a, m, r);
    let m2 = choose|m: u32| magnitude_steps(fpu, a, m, s);
    lemma_dot_unique(fpu, a, a, m1, m2);
}

/// With a deterministic unit two normalizations of the same vector are the
/// same.
pub proof fn lemma_normalized_unique<F: Fn(ScalarOp) -> u32>(
    fpu: &F,
    a: Components,
    r: Components,
    s: Components,
)
    requires
        deterministic(fpu),
        normalized_of(fpu, a, r),
        normalized_of(fpu, a, s),
    ensures
        r == s,
{
    let m1 = choose|m: u32| normalize_steps(fpu, a, m, r);
    let m2 = choose|m: u32| normalize_steps(fpu, a, m, s);
    lemma_magnitude_unique(fpu, a, m1, m2);
    lemma_quotient_unique(fpu, a, Components::splat(m1), r, s);
}

/// With a deterministic unit two values of `p * q - s * t` are the same.
pub proof fn lemma_product_difference_unique<F: Fn(ScalarOp) -> u32>(
    fpu: &F,
    p: u32,
    q: u32,
    s: u32,
    t: u32,
    r1: u32,
    r2: u32,
)
    requires
        deterministic(fpu),
        product_difference(fpu, p, q, s, t, r1),
        product_difference(fpu, p, q, s, t, r2),
    ensures
        r1 == r2,
{
    let (m1, n1) = choose|m: u32, n: u32| product_difference_steps(fpu, p, q, s, t, m, n, r1);
    let (m2, n2) = choose|m: u32, n: u32| product_difference_steps(fpu, p, q, s, t, m, n, r2);
    assert(m1 == m2);
    assert(n1 == n2);
}

/// With a deterministic unit two cross products of the same vectors are the
/// same.
pub proof fn lemma_cross_unique<F: Fn(ScalarOp) -> u32>(
    fpu: &F,
    a: Components,
    b: Components,
    r: Components,
    s: Components,
)
    requires
        deterministic(fpu),
        cross_of(fpu, a, b, r),
        cross_of(fpu, a, b, s),
    ensures
        r == s,
{
    lemma_product_difference_unique(fpu, a.y, b.z, a.z, b.y, r.x, s.x);
    lemma_product_difference_unique(fpu, a.z, b.x, a.x, b.z, r.y, s.y);
    lemma_product_difference_unique(fpu, a.x, b.y, a.y, b.x, r.z, s.z);
}

/// With a deterministic unit two approximate reciprocals of the same vector
/// are the same.
pub proof fn lemma_reciprocal_unique<F: Fn(ScalarOp) -> u32>(
    fpu: &F,
    a: Components,
    r: Components,
    s: Components,
)
    requires
        deterministic(fpu),
        reciprocal_of(fpu, a, r),
        reciprocal_of(fpu, a, s),
    ensures
        r == s,
{
    let q1 = choose|q: Components| reciprocal_steps(fpu, a, q, r);
    let q2 = choose|q: Components| reciprocal_steps(fpu, a, q, s);
    lemma_quotient_unique(fpu, Components::splat(crate::bits::ONE), a, q1, q2);
}

/// An approximate reciprocal is close to the quotient it was cut from: in a
/// component whose quotient `1.0 / a` came back as a normal number, the
/// result has the sign and exponent of that quotient, is not above it in
/// absolute value, and falls short of it by less than one part in `4096`.
pub proof fn lemma_reciprocal_close_to_quotient<F: Fn(ScalarOp) -> u32>(
    fpu: &F,
    a: Components,
    q: Components,
    r: Components,
)
    requires
        reciprocal_steps(fpu, a, q, r),
    ensures
        is_normal(q.x) ==> close_below(r.x, q.x),
        is_normal(q.y) ==> close_below(r.y, q.y),
        is_normal(q.z) ==> close_below(r.z, q.z),
{
    if is_normal(q.x) {
        lemma_coarsen_error(q.x);
    }
    if is_normal(q.y) {
        lemma_coarsen_error(q.y);
    }
    if is_normal(q.z) {
        lemma_coarsen_error(q.z);
    }
}

/// Vector addition commutes where the unit's addition does: a sum of `a`
/// and `b` and a sum of `b` and `a` are alike in every component.
pub proof fn lemma_add_commutes<F: Fn(ScalarOp) -> u32>(
    fpu: &F,
    a: Components,
    b: Components,
    forth: Components,
    back: Components,
)
    requires
        addition_commutes(fpu),
        sum_of(fpu, a, b, forth),
        sum_of(fpu, b, a, back),
    ensures
        all_alike(forth, back),
{
}

/// A vector times a scalar and the scalar times the vector are the same
/// where the unit is deterministic: both are the vector scaled by the
/// scalar.
pub proof fn lemma_scalar_product_commutes<F: Fn(ScalarOp) -> u32>(
    fpu: &F,
    a: Components,
    s: u32,
    vector_times_scalar: Components,
    scalar_times_vector: Components,
)
    requires
        deterministic(fpu),
        scaled_by(fpu, a, s, vector_times_scalar),
        scaled_by(fpu, a, s, scalar_times_vector),
    ensures
        vector_times_scalar == scalar_times_vector,
{
}

/// The dot product of a vector with itself is its squared magnitude: with
/// a deterministic unit, any dot product of `v` with `v` equals any squared
/// magnitude of `v`.
pub proof fn lemma_self_dot_is_magnitude_squared<F: Fn(ScalarOp) -> u32>(
    fpu: &F,
    v: Components,
    dot: u32,
    magnitude_squared: u32,
)
    requires
        deterministic(fpu),
        dot_of(fpu, v, v, dot),
        dot_of(fpu, v, v, magnitude_squared),
    ensures
        dot == magnitude_squared,
{
    lemma_dot_unique(fpu, v, v, dot, magnitude_squared);
}

proof fn lemma_product_difference_reverses<F: Fn(ScalarOp) -> u32>(
    fpu: &F,
    p: u32,
    q: u32,
    s: u32,
    t: u32,
    forth: u32,
    back: u32,
)
    requires
        multiplication_commutes(fpu),
        subtraction_reverses(fpu),
        subtraction_keeps_nan(fpu),
        product_difference(fpu, p, q, s, t, forth),
        product_difference(fpu, t, s, q, p, back),
    ensures
        opposite(forth, back),
{
    let (m1, n1) = choose|m: u32, n: u32| product_difference_steps(fpu, p, q, s, t, m, n, forth);
    let (m2, n2) = choose|m: u32, n: u32| product_difference_steps(fpu, t, s, q, p, m, n, back);
    assert(alike(n1, m2));
    assert(alike(m1, n2));
}

/// The cross product changes sign when its operands are swapped, where the
/// unit multiplies commutatively, reverses its subtraction and keeps a NaN
/// through it: a cross product of `a` and `b` and one of `b` and `a` are,
/// in each component, opposite numbers or both NaN.
pub proof fn lemma_cross_anticommutes<F: Fn(ScalarOp) -> u32>(
    fpu: &F,
    a: Components,
    b: Components,
    forth: Components,
    back: Components,
)
    requires
        multiplication_commutes(fpu),
        subtraction_reverses(fpu),
        subtraction_keeps_nan(fpu),
        cross_of(fpu, a, b, forth),
        cross_of(fpu, b, a, back),
    ensures
        all_opposite(forth, back),
{
    lemma_product_difference_reverses(fpu, a.y, b.z, a.z, b.y, forth.x, back.x);
    lemma_product_difference_reverses(fpu, a.z, b.x, a.x, b.z, forth.y, back.y);
    lemma_product_difference_reverses(fpu, a.x, b.y, a.y, b.x, forth.z, back.z);
}

} // verus!
