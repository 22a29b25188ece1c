//! The scalar arithmetic that the vector operations are built from.
//!
//! Rounded arithmetic is not done here. A caller hands each arithmetic
//! operation of the vector type a scalar unit: a function from a `ScalarOp`
//! to the pattern of its result. The vector operations decide which lanes
//! meet in which request and in what order; their contracts say so in terms
//! of the unit's own postcondition, and assume nothing else of it.
use vstd::prelude::*;

verus! {

/// One request to the scalar unit. Operands and results are binary32 bit
/// patterns.
#[derive(Clone, Copy, Debug)]
pub enum ScalarOp {
    /// The sum of the two operands.
    Add(u32, u32),
    /// The first operand less the second.
    Sub(u32, u32),
    /// The product of the two operands.
    Mul(u32, u32),
    /// The first operand divided by the second.
    Div(u32, u32),
    /// The square root of the operand.
    Sqrt(u32),
}

/// The unit takes every request.
pub open spec fn accepts_all<F: Fn(ScalarOp) -> u32>(fpu: &F) -> bool {
    forall|op: ScalarOp| #[trigger] fpu.requires((op,))
}

/// `r` is a possible answer of the unit to `op`.
pub open spec fn yields<F: Fn(ScalarOp) -> u32>(fpu: &F, op: ScalarOp, r: u32) -> bool {
    fpu.ensures((op,), r)
}

/// The unit has at most one answer to each request.
pub open spec fn deterministic<F: Fn(ScalarOp) -> u32>(fpu: &F) -> bool {
    forall|op: ScalarOp, r: u32, s: u32|
        #[trigger] yields(fpu, op, r) && #[trigger] yields(fpu, op, s) ==> r == s
}

/// Puts one request to the unit.
pub fn ask<F: Fn(ScalarOp) -> u32>(fpu: &F, op: ScalarOp) -> (r: u32)
    requires
        accepts_all(fpu),
    ensures
        yields(fpu, op, r),
{
    fpu(op)
}

} // verus!
