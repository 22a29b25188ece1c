//! The numbers that bit patterns encode.
//!
//! A finite binary32 number is a whole multiple of `2^-149`, so it can be
//! written down as an integer: its value in that unit. This module defines
//! that reading and proves two things against it: the order that the
//! comparisons of `bits` use is the order of the encoded numbers, and
//! coarsening a normal number moves it towards zero by less than `2^-12` of
//! itself.
use crate::bits::{
    is_normal, order_key, same_number, spec_coarsen, spec_is_nan, spec_is_negative,
    spec_less_than, spec_magnitude, spec_negate, MIN_NORMAL,
};
use vstd::arithmetic::power2::{
    lemma_pow2_pos, lemma_pow2_strictly_increases, lemma_pow2_unfold, pow2,
};
use vstd::prelude::*;

verus! {

/// The eight exponent bits.
pub open spec fn exponent_field(b: u32) -> nat {
    (spec_magnitude(b) / MIN_NORMAL) as nat
}

/// The twenty-three fraction bits.
pub open spec fn fraction_field(b: u32) -> nat {
    (spec_magnitude(b) % MIN_NORMAL) as nat
}

/// The absolute value of the encoded number, in units of `2^-149`: the
/// fraction alone where the exponent field is zero, else the fraction under
/// its hidden bit, doubled once for each exponent step above one. The
/// pattern of infinity reads as `2^128`, above every finite number.
pub open spec fn scaled_magnitude(b: u32) -> nat {
    let e = exponent_field(b);
    let f = fraction_field(b);
    if e == 0 {
        f
    } else {
        ((MIN_NORMAL + f) * pow2((e - 1) as nat)) as nat
    }
}

/// The encoded number in units of `2^-149`, for a pattern that is not a NaN.
pub open spec fn scaled_value(b: u32) -> int {
    if spec_is_negative(b) {
        -(scaled_magnitude(b) as int)
    } else {
        scaled_magnitude(b) as int
    }
}

proof fn lemma_pow2_increases(e1: nat, e2: nat)
    requires
        e1 <= e2,
    ensures
        pow2(e1) <= pow2(e2),
{
    if e1 < e2 {
        lemma_pow2_strictly_increases(e1, e2);
    }
}

/// A greater magnitude pattern encodes a greater absolute value.
pub proof fn lemma_scaled_magnitude_increases(a: u32, b: u32)
    requires
        spec_magnitude(a) < spec_magnitude(b),
    ensures
        scaled_magnitude(a) < scaled_magnitude(b),
{
    let ea = exponent_field(a);
    let fa = fraction_field(a);
    let eb = exponent_field(b);
    let fb = fraction_field(b);
    let unit = MIN_NORMAL as int;
    assert(ea <= eb);
    assert(ea == eb ==> fa < fb);
    if ea == eb {
        if ea != 0 {
            let p = pow2((ea - 1) as nat) as int;
            lemma_pow2_pos((ea - 1) as nat);
            assert((unit + fa) * p < (unit + fb) * p) by (nonlinear_arith)
                requires
                    fa < fb,
                    p > 0,
            ;
        }
    } else {
        let pb = pow2((eb - 1) as nat) as int;
        lemma_pow2_pos((eb - 1) as nat);
        assert(unit * pb <= (unit + fb) * pb) by (nonlinear_arith)
            requires
                0 <= fb,
                pb > 0,
        ;
        if ea == 0 {
            assert(unit * 1 <= unit * pb) by (nonlinear_arith)
                requires
                    pb >= 1,
                    unit > 0,
            ;
        } else {
            let pa = pow2((ea - 1) as nat) as int;
            lemma_pow2_pos((ea - 1) as nat);
            lemma_pow2_unfold(ea);
            lemma_pow2_increases(ea, (eb - 1) as nat);
            assert((unit + fa) * pa < unit * (2 * pa)) by (nonlinear_arith)
                requires
                    fa < unit,
                    pa > 0,
            ;
            assert(unit * (2 * pa) <= unit * pb) by (nonlinear_arith)
                requires
                    2 * pa <= pb,
                    unit > 0,
            ;
        }
    }
}

/// The order on patterns is the order of the numbers: the key of `a` lies
/// below the key of `b` exactly where the value of `a` lies below the value
/// of `b`, and the keys agree exactly where the values do.
pub proof fn lemma_key_orders_by_value(a: u32, b: u32)
    ensures
        order_key(a) < order_key(b) <==> scaled_value(a) < scaled_value(b),
        order_key(a) == order_key(b) <==> scaled_value(a) == scaled_value(b),
{
    let zero: u32 = 0;
    assert(scaled_magnitude(zero) == 0);
    if spec_magnitude(a) < spec_magnitude(b) {
        lemma_scaled_magnitude_increases(a, b);
    }
    if spec_magnitude(b) < spec_magnitude(a) {
        lemma_scaled_magnitude_increases(b, a);
    }
    if spec_magnitude(a) > 0 {
        lemma_scaled_magnitude_increases(zero, a);
    }
    if spec_magnitude(b) > 0 {
        lemma_scaled_magnitude_increases(zero, b);
    }
    assert(spec_magnitude(a) == spec_magnitude(b) ==> scaled_magnitude(a) == scaled_magnitude(b));
}

/// The comparisons read numbers: on patterns that are not NaN, `a < b` and
/// `a == b` hold exactly where they hold of the encoded values.
pub proof fn lemma_comparisons_read_values(a: u32, b: u32)
    requires
        !spec_is_nan(a),
        !spec_is_nan(b),
    ensures
        spec_less_than(a, b) <==> scaled_value(a) < scaled_value(b),
        same_number(a, b) <==> scaled_value(a) == scaled_value(b),
{
    lemma_key_orders_by_value(a, b);
}

/// Flipping the sign bit negates the number.
pub proof fn lemma_negate_negates_value(b: u32)
    ensures
        scaled_value(spec_negate(b)) == -scaled_value(b),
        spec_is_nan(spec_negate(b)) == spec_is_nan(b),
{
}

/// `r` has the sign and exponent of `q`, is not above it in absolute value,
/// and falls short of it by less than one part in `4096`.
pub open spec fn close_below(r: u32, q: u32) -> bool {
    &&& spec_is_negative(r) == spec_is_negative(q)
    &&& exponent_field(r) == exponent_field(q)
    &&& scaled_magnitude(r) <= scaled_magnitude(q)
    &&& (scaled_magnitude(q) - scaled_magnitude(r)) * 4096 < scaled_magnitude(q)
}

/// Coarsening a normal number leaves a normal number and moves it towards
/// zero by less than one part in `4096` of its absolute value.
pub proof fn lemma_coarsen_error(q: u32)
    requires
        is_normal(q),
    ensures
        is_normal(spec_coarsen(q)),
        close_below(spec_coarsen(q), q),
{
    let c = spec_coarsen(q);
    let e = exponent_field(q);
    let fq = fraction_field(q) as int;
    let fc = fraction_field(c) as int;
    let unit = MIN_NORMAL as int;
    assert(spec_magnitude(c) == spec_magnitude(q) - spec_magnitude(q) % 0x800);
    assert(exponent_field(c) == e);
    assert(0 <= fq - fc < 0x800);
    let p = pow2((e - 1) as nat) as int;
    lemma_pow2_pos((e - 1) as nat);
    assert((unit + fc) * p <= (unit + fq) * p) by (nonlinear_arith)
        requires
            fc <= fq,
            p > 0,
    ;
    assert(((unit + fq) * p - (unit + fc) * p) * 4096 < (unit + fq) * p) by (nonlinear_arith)
        requires
            0 <= fq - fc < 0x800,
            0 <= fq,
            unit == 0x80_0000,
            p > 0,
    ;
}

} // verus!
