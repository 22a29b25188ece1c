//! The arithmetic of the vector type.
//!
//! Each operation takes the scalar unit that does its rounded arithmetic and
//! puts one request to it per scalar operation, on the three components only:
//! the padding lane is never an operand, so it stays zero where a register
//! divided by itself would hold a NaN. A contract names the requests and how
//! the answers feed one another; where the unit is deterministic that fixes
//! the result (see the laws).
use crate::bits::{coarsen, spec_coarsen, ONE};
use crate::fpu::{accepts_all, ask, yields, ScalarOp};
use crate::vector::{Components, Vec3};
use vstd::prelude::*;

verus! {

/// `r` is a sum of `a` and `b`, component by component.
pub open spec fn sum_of<F: Fn(ScalarOp) -> u32>(
    fpu: &F,
    a: Components,
    b: Components,
    r: Components,
) -> bool {
    &&& yields(fpu, ScalarOp::Add(a.x, b.x), r.x)
    &&& yields(fpu, ScalarOp::Add(a.y, b.y), r.y)
    &&& yields(fpu, ScalarOp::Add(a.z, b.z), r.z)
}

/// `r` is `a` less `b`, component by component.
pub open spec fn difference_of<F: Fn(ScalarOp) -> u32>(
    fpu: &F,
    a: Components,
    b: Components,
    r: Components,
) -> bool {
    &&& yields(fpu, ScalarOp::Sub(a.x, b.x), r.x)
    &&& yields(fpu, ScalarOp::Sub(a.y, b.y), r.y)
    &&& yields(fpu, ScalarOp::Sub(a.z, b.z), r.z)
}

/// `r` is a product of `a` and `b`, component by component.
pub open spec fn product_of<F: Fn(ScalarOp) -> u32>(
    fpu: &F,
    a: Components,
    b: Components,
    r: Components,
) -> bool {
    &&& yields(fpu, ScalarOp::Mul(a.x, b.x), r.x)
    &&& yields(fpu, ScalarOp::Mul(a.y, b.y), r.y)
    &&& yields(fpu, ScalarOp::Mul(a.z, b.z), r.z)
}

/// `r` is `a` divided by `b`, component by component.
pub open spec fn quotient_of<F: Fn(ScalarOp) -> u32>(
    fpu: &F,
    a: Components,
    b: Components,
    r: Components,
) -> bool {
    &&& yields(fpu, ScalarOp::Div(a.x, b.x), r.x)
    &&& yields(fpu, ScalarOp::Div(a.y, b.y), r.y)
    &&& yields(fpu, ScalarOp::Div(a.z, b.z), r.z)
}

/// `r` is `a` with each component multiplied by the scalar `s`, the
/// component being the first operand.
pub open spec fn scaled_by<F: Fn(ScalarOp) -> u32>(
    fpu: &F,
    a: Components,
    s: u32,
    r: Components,
) -> bool {
    product_of(fpu, a, Components::splat(s), r)
}

/// `r` is `a` with each component divided by the scalar `s`.
pub open spec fn divided_by<F: Fn(ScalarOp) -> u32>(
    fpu: &F,
    a: Components,
    s: u32,
    r: Components,
) -> bool {
    quotient_of(fpu, a, Components::splat(s), r)
}

/// `r` is `(a.x * b.x + a.y * b.y) + a.z * b.z`, with `p` the three products
/// and `s` the first sum.
pub open spec fn dot_steps<F: Fn(ScalarOp) -> u32>(
    fpu: &F,
    a: Components,
    b: Components,
    p: Components,
    s: u32,
    r: u32,
) -> bool {
    &&& product_of(fpu, a, b, p)
    &&& yields(fpu, ScalarOp::Add(p.x, p.y), s)
    &&& yields(fpu, ScalarOp::Add(s, p.z), r)
}

/// `r` is a dot product of `a` and `b`: the three products of matching
/// components, summed from `x` to `z`.
pub open spec fn dot_of<F: Fn(ScalarOp) -> u32>(
    fpu: &F,
    a: Components,
    b: Components,
    r: u32,
) -> bool {
    exists|p: Components, s: u32| dot_steps(fpu, a, b, p, s, r)
}

/// `r` is a square root of the squared magnitude `m`, and `m` is a dot
/// product of `a` with itself.
pub open spec fn magnitude_steps<F: Fn(ScalarOp) -> u32>(
    fpu: &F,
    a: Components,
    m: u32,
    r: u32,
) -> bool {
    &&& dot_of(fpu, a, a, m)
    &&& yields(fpu, ScalarOp::Sqrt(m), r)
}

/// `r` is a magnitude of `a`: a square root of a dot product of `a` with
/// itself.
pub open spec fn magnitude_of<F: Fn(ScalarOp) -> u32>(fpu: &F, a: Components, r: u32) -> bool {
    exists|m: u32| magnitude_steps(fpu, a, m, r)
}

/// `r` is `a` divided by `m`, and `m` is a magnitude of `a`.
pub open spec fn normalize_steps<F: Fn(ScalarOp) -> u32>(
    fpu: &F,
    a: Components,
    m: u32,
    r: Components,
) -> bool {
    &&& magnitude_of(fpu, a, m)
    &&& divided_by(fpu, a, m, r)
}

/// `r` is `a` normalized: `a` divided by a magnitude of `a`.
pub open spec fn normalized_of<F: Fn(ScalarOp) -> u32>(
    fpu: &F,
    a: Components,
    r: Components,
) -> bool {
    exists|m: u32| normalize_steps(fpu, a, m, r)
}

/// `r` is `m - n`, where `m` is `p * q` and `n` is `s * t`.
pub open spec fn product_difference_steps<F: Fn(ScalarOp) -> u32>(
    fpu: &F,
    p: u32,
    q: u32,
    s: u32,
    t: u32,
    m: u32,
    n: u32,
    r: u32,
) -> bool {
    &&& yields(fpu, ScalarOp::Mul(p, q), m)
    &&& yields(fpu, ScalarOp::Mul(s, t), n)
    &&& yields(fpu, ScalarOp::Sub(m, n), r)
}

/// `r` is `p * q - s * t`: a difference of the two products, each rounded
/// before the subtraction.
pub open spec fn product_difference<F: Fn(ScalarOp) -> u32>(
    fpu: &F,
    p: u32,
    q: u32,
    s: u32,
    t: u32,
    r: u32,
) -> bool {
    exists|m: u32, n: u32| product_difference_steps(fpu, p, q, s, t, m, n, r)
}

/// `r` is a cross product of `a` and `b`:
/// `(a.y * b.z - a.z * b.y, a.z * b.x - a.x * b.z, a.x * b.y - a.y * b.x)`.
pub open spec fn cross_of<F: Fn(ScalarOp) -> u32>(
    fpu: &F,
    a: Components,
    b: Components,
    r: Components,
) -> bool {
    &&& product_difference(fpu, a.y, b.z, a.z, b.y, r.x)
    &&& product_difference(fpu, a.z, b.x, a.x, b.z, r.y)
    &&& product_difference(fpu, a.x, b.y, a.y, b.x, r.z)
}

/// `r` is `q` coarsened component by component, and `q` is `1.0` divided by
/// each component of `a`.
pub open spec fn reciprocal_steps<F: Fn(ScalarOp) -> u32>(
    fpu: &F,
    a: Components,
    q: Components,
    r: Components,
) -> bool {
    &&& quotient_of(fpu, Components::splat(ONE), a, q)
    &&& r == Components {
        x: spec_coarsen(q.x),
        y: spec_coarsen(q.y),
        z: spec_coarsen(q.z),
    }
}

/// `r` is an approximate reciprocal of `a`: in each component a quotient of
/// `1.0` by the component, rounded towards zero to twelve fraction bits.
pub open spec fn reciprocal_of<F: Fn(ScalarOp) -> u32>(
    fpu: &F,
    a: Components,
    r: Components,
) -> bool {
    exists|q: Components| reciprocal_steps(fpu, a, q, r)
}

impl Vec3 {
    /// The sum, component by component.
    pub fn add<F: Fn(ScalarOp) -> u32>(self, rhs: Vec3, fpu: &F) -> (r: Vec3)
        requires
            accepts_all(fpu),
        ensures
            sum_of(fpu, self@, rhs@, r@),
    {
        Vec3::new(
            ask(fpu, ScalarOp::Add(self.x(), rhs.x())),
            ask(fpu, ScalarOp::Add(self.y(), rhs.y())),
            ask(fpu, ScalarOp::Add(self.z(), rhs.z())),
        )
    }

    /// The difference, component by component.
    pub fn sub<F: Fn(ScalarOp) -> u32>(self, rhs: Vec3, fpu: &F) -> (r: Vec3)
        requires
            accepts_all(fpu),
        ensures
            difference_of(fpu, self@, rhs@, r@),
    {
        Vec3::new(
            ask(fpu, ScalarOp::Sub(self.x(), rhs.x())),
            ask(fpu, ScalarOp::Sub(self.y(), rhs.y())),
            ask(fpu, ScalarOp::Sub(self.z(), rhs.z())),
        )
    }

    /// The product, component by component.
    pub fn mul<F: Fn(ScalarOp) -> u32>(self, rhs: Vec3, fpu: &F) -> (r: Vec3)
        requires
            accepts_all(fpu),
        ensures
            product_of(fpu, self@, rhs@, r@),
    {
        Vec3::new(
            ask(fpu, ScalarOp::Mul(self.x(), rhs.x())),
            ask(fpu, ScalarOp::Mul(self.y(), rhs.y())),
            ask(fpu, ScalarOp::Mul(self.z(), rhs.z())),
        )
    }

    /// The quotient, component by component. A zero divisor is handed to the
    /// unit like any other; the padding lanes are not divided.
    pub fn div<F: Fn(ScalarOp) -> u32>(self, rhs: Vec3, fpu: &F) -> (r: Vec3)
        requires
            accepts_all(fpu),
        ensures
            quotient_of(fpu, self@, rhs@, r@),
    {
        Vec3::new(
            ask(fpu, ScalarOp::Div(self.x(), rhs.x())),
            ask(fpu, ScalarOp::Div(self.y(), rhs.y())),
            ask(fpu, ScalarOp::Div(self.z(), rhs.z())),
        )
    }

    /// Each component multiplied by the scalar `rhs`.
    pub fn mul_scalar<F: Fn(ScalarOp) -> u32>(self, rhs: u32, fpu: &F) -> (r: Vec3)
        requires
            accepts_all(fpu),
        ensures
            scaled_by(fpu, self@, rhs, r@),
    {
        self.mul(Vec3::splat(rhs), fpu)
    }

    /// Each component divided by the scalar `rhs`.
    pub fn div_scalar<F: Fn(ScalarOp) -> u32>(self, rhs: u32, fpu: &F) -> (r: Vec3)
        requires
            accepts_all(fpu),
        ensures
            divided_by(fpu, self@, rhs, r@),
    {
        self.div(Vec3::splat(rhs), fpu)
    }

    /// Replaces the vector by its sum with `rhs`.
    pub fn add_assign<F: Fn(ScalarOp) -> u32>(&mut self, rhs: Vec3, fpu: &F)
        requires
            accepts_all(fpu),
        ensures
            sum_of(fpu, old(self)@, rhs@, final(self)@),
    {
        *self = self.add(rhs, fpu);
    }

    /// Replaces the vector by itself less `rhs`.
    pub fn sub_assign<F: Fn(ScalarOp) -> u32>(&mut self, rhs: Vec3, fpu: &F)
        requires
            accepts_all(fpu),
        ensures
            difference_of(fpu, old(self)@, rhs@, final(self)@),
    {
        *self = self.sub(rhs, fpu);
    }

    /// Replaces the vector by itself divided by the scalar `rhs`.
    pub fn div_assign<F: Fn(ScalarOp) -> u32>(&mut self, rhs: u32, fpu: &F)
        requires
            accepts_all(fpu),
        ensures
            divided_by(fpu, old(self)@, rhs, final(self)@),
    {
        *self = self.div_scalar(rhs, fpu);
    }

    /// The dot product: `(x * x' + y * y') + z * z'`, every product and sum
    /// rounded by the unit.
    pub fn dot<F: Fn(ScalarOp) -> u32>(self, rhs: Vec3, fpu: &F) -> (r: u32)
        requires
            accepts_all(fpu),
        ensures
            dot_of(fpu, self@, rhs@, r),
    {
        let p = self.mul(rhs, fpu);
        let s = ask(fpu, ScalarOp::Add(p.x(), p.y()));
        let r = ask(fpu, ScalarOp::Add(s, p.z()));
        assert(dot_steps(fpu, self@, rhs@, p@, s, r));
        r
    }

    /// The squared magnitude: the dot product of the vector with itself.
    pub fn magnitude_squared<F: Fn(ScalarOp) -> u32>(self, fpu: &F) -> (r: u32)
        requires
            accepts_all(fpu),
        ensures
            dot_of(fpu, self@, self@, r),
    {
        self.dot(self, fpu)
    }

    /// The magnitude: the square root of the squared magnitude.
    pub fn magnitude<F: Fn(ScalarOp) -> u32>(self, fpu: &F) -> (r: u32)
        requires
            accepts_all(fpu),
        ensures
            magnitude_of(fpu, self@, r),
    {
        let m = self.magnitude_squared(fpu);
        let r = ask(fpu, ScalarOp::Sqrt(m));
        assert(magnitude_steps(fpu, self@, m, r));
        r
    }

    /// The vector divided by its magnitude. The zero vector is divided by
    /// zero like any other: what comes back is what the unit answers to
    /// `0.0 / 0.0`.
    pub fn normalize<F: Fn(ScalarOp) -> u32>(self, fpu: &F) -> (r: Vec3)
        requires
            accepts_all(fpu),
        ensures
            normalized_of(fpu, self@, r@),
    {
        let m = self.magnitude(fpu);
        let r = self.div_scalar(m, fpu);
        assert(normalize_steps(fpu, self@, m, r@));
        r
    }

    /// The cross product, by two shuffles of the operands, two lane-wise
    /// products, a shuffle of one product and one lane-wise subtraction.
    pub fn cross<F: Fn(ScalarOp) -> u32>(self, rhs: Vec3, fpu: &F) -> (r: Vec3)
        requires
            accepts_all(fpu),
        ensures
            cross_of(fpu, self@, rhs@, r@),
    {
        let lhs_up = self.yzx();
        let rhs_down = rhs.zxy();
        let subtrahend_down = lhs_up.mul(rhs, fpu);
        let minuend = lhs_up.mul(rhs_down, fpu);
        let subtrahend = subtrahend_down.yzx();
        let r = minuend.sub(subtrahend, fpu);
        assert(product_difference_steps(
            fpu,
            self@.y,
            rhs@.z,
            self@.z,
            rhs@.y,
            minuend@.x,
            subtrahend@.x,
            r@.x,
        ));
        assert(product_difference_steps(
            fpu,
            self@.z,
            rhs@.x,
            self@.x,
            rhs@.z,
            minuend@.y,
            subtrahend@.y,
            r@.y,
        ));
        assert(product_difference_steps(
            fpu,
            self@.x,
            rhs@.y,
            self@.y,
            rhs@.x,
            minuend@.z,
            subtrahend@.z,
            r@.z,
        ));
        r
    }

    /// An approximate reciprocal of each component: `1.0` divided by the
    /// component, then rounded towards zero to twelve fraction bits. Where
    /// the unit divides with correct rounding and the quotient is a normal
    /// number, the relative error stays below `1.5 * 2^-12`; a quotient that
    /// is a NaN is returned as it is.
    pub fn reciprocal<F: Fn(ScalarOp) -> u32>(self, fpu: &F) -> (r: Vec3)
        requires
            accepts_all(fpu),
        ensures
            reciprocal_of(fpu, self@, r@),
    {
        let q = Vec3::splat(ONE).div(self, fpu);
        let r = Vec3::new(coarsen(q.x()), coarsen(q.y()), coarsen(q.z()));
        assert(reciprocal_steps(fpu, self@, q@, r@));
        r
    }
}

/// The scalar `s` times the vector `v`: the same requests as
/// `v.mul_scalar(s, fpu)`, in which each component is the first operand.
pub fn scale<F: Fn(ScalarOp) -> u32>(s: u32, v: Vec3, fpu: &F) -> (r: Vec3)
    requires
        accepts_all(fpu),
    ensures
        scaled_by(fpu, v@, s, r@),
{
    v.mul_scalar(s, fpu)
}

} // verus!
