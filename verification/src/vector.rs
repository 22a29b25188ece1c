//! The vector type: construction, access, lane permutations, sign, and the
//! operations that only compare.
//!
//! A `Vec3` occupies four lanes, as a vector register does. Lanes 0 to 2 hold
//! `x`, `y` and `z`; lane 3 is padding and holds `+0.0` in every value, which
//! is the type's invariant. No operation reads the padding lane: the
//! reductions fold the three components and nothing else, so a vector whose
//! components are all negative has a negative maximum.
use crate::bits::{
    max, max_number, min, min_number, negate, same_number, spec_is_nan, spec_less_than, spec_max,
    spec_max_number, spec_min, spec_min_number, spec_negate, ONE,
};
use vstd::prelude::*;

verus! {

/// The three components of a vector, as bit patterns: what a `Vec3` is to a
/// contract.
pub ghost struct Components {
    pub x: u32,
    pub y: u32,
    pub z: u32,
}

impl Components {
    /// The same pattern in every component.
    pub open spec fn splat(f: u32) -> Components {
        Components { x: f, y: f, z: f }
    }

    /// The components moved one place up: `(y, z, x)`.
    pub open spec fn yzx(self) -> Components {
        Components { x: self.y, y: self.z, z: self.x }
    }

    /// The components moved one place down: `(z, x, y)`.
    pub open spec fn zxy(self) -> Components {
        Components { x: self.z, y: self.x, z: self.y }
    }

    /// Every component with its sign flipped.
    pub open spec fn neg(self) -> Components {
        Components { x: spec_negate(self.x), y: spec_negate(self.y), z: spec_negate(self.z) }
    }

    /// The lane minimum of each pair of components.
    pub open spec fn min(self, rhs: Components) -> Components {
        Components {
            x: spec_min(self.x, rhs.x),
            y: spec_min(self.y, rhs.y),
            z: spec_min(self.z, rhs.z),
        }
    }

    /// The lane maximum of each pair of components.
    pub open spec fn max(self, rhs: Components) -> Components {
        Components {
            x: spec_max(self.x, rhs.x),
            y: spec_max(self.y, rhs.y),
            z: spec_max(self.z, rhs.z),
        }
    }

    /// The three components folded with the maximum that passes over a NaN.
    pub open spec fn horizontal_max(self) -> u32 {
        spec_max_number(spec_max_number(self.x, self.y), self.z)
    }

    /// The three components folded with the minimum that passes over a NaN.
    pub open spec fn horizontal_min(self) -> u32 {
        spec_min_number(spec_min_number(self.x, self.y), self.z)
    }

    /// Whether `f` is one of the three components.
    pub open spec fn has(self, f: u32) -> bool {
        f == self.x || f == self.y || f == self.z
    }

    /// Whether every component is a NaN.
    pub open spec fn all_nan(self) -> bool {
        spec_is_nan(self.x) && spec_is_nan(self.y) && spec_is_nan(self.z)
    }
}

/// A vector of three single-precision components in four lanes.
#[derive(Clone, Copy, Debug)]
pub struct Vec3 {
    x: u32,
    y: u32,
    z: u32,
    pad: u32,
}

impl View for Vec3 {
    type V = Components;

    closed spec fn view(&self) -> Components {
        Components { x: self.x, y: self.y, z: self.z }
    }
}

impl Vec3 {
    #[verifier::type_invariant]
    spec fn padding_is_zero(self) -> bool {
        self.pad == 0
    }

    /// The vector that `new` builds.
    pub closed spec fn spec_new(x: u32, y: u32, z: u32) -> Vec3 {
        Vec3 { x, y, z, pad: 0 }
    }

    /// The component that `x` returns.
    pub open spec fn spec_x(self) -> u32 {
        self@.x
    }

    /// The component that `y` returns.
    pub open spec fn spec_y(self) -> u32 {
        self@.y
    }

    /// The component that `z` returns.
    pub open spec fn spec_z(self) -> u32 {
        self@.z
    }

    /// The vector with the given components and a zero padding lane. Any
    /// pattern is taken, a NaN or an infinity as well.
    #[verifier::when_used_as_spec(spec_new)]
    pub fn new(x: u32, y: u32, z: u32) -> (r: Vec3)
        ensures
            r == Vec3::spec_new(x, y, z),
            r@ == (Components { x, y, z }),
    {
        Vec3 { x, y, z, pad: 0 }
    }

    /// The vector with `f` in each component.
    pub fn splat(f: u32) -> (r: Vec3)
        ensures
            r == Vec3::new(f, f, f),
            r@ == Components::splat(f),
    {
        Vec3::new(f, f, f)
    }

    /// The vector of three zeros.
    pub fn zero() -> (r: Vec3)
        ensures
            r@ == Components::splat(0),
    {
        Vec3::splat(0)
    }

    /// The vector of three ones.
    pub fn one() -> (r: Vec3)
        ensures
            r@ == Components::splat(ONE),
    {
        Vec3::splat(ONE)
    }

    /// The first component.
    #[verifier::when_used_as_spec(spec_x)]
    pub fn x(self) -> (r: u32)
        ensures
            r == self@.x,
    {
        self.x
    }

    /// The second component.
    #[verifier::when_used_as_spec(spec_y)]
    pub fn y(self) -> (r: u32)
        ensures
            r == self@.y,
    {
        self.y
    }

    /// The third component.
    #[verifier::when_used_as_spec(spec_z)]
    pub fn z(self) -> (r: u32)
        ensures
            r == self@.z,
    {
        self.z
    }

    /// A copy with the first component replaced.
    pub fn with_x(self, x: u32) -> (r: Vec3)
        ensures
            r@ == (Components { x, ..self@ }),
    {
        Vec3::new(x, self.y, self.z)
    }

    /// A copy with the second component replaced.
    pub fn with_y(self, y: u32) -> (r: Vec3)
        ensures
            r@ == (Components { y, ..self@ }),
    {
        Vec3::new(self.x, y, self.z)
    }

    /// A copy with the third component replaced.
    pub fn with_z(self, z: u32) -> (r: Vec3)
        ensures
            r@ == (Components { z, ..self@ }),
    {
        Vec3::new(self.x, self.y, z)
    }

    /// The four lanes as they lie in the register: the components, then the
    /// zero padding.
    pub fn as_inner(self) -> (r: [u32; 4])
        ensures
            r@ == seq![self@.x, self@.y, self@.z, 0u32],
    {
        proof {
            use_type_invariant(&self);
        }
        [self.x, self.y, self.z, self.pad]
    }

    /// The lanes shuffled to `(y, z, x)`; the padding stays where it is.
    pub fn yzx(self) -> (r: Vec3)
        ensures
            r@ == self@.yzx(),
    {
        Vec3::new(self.y, self.z, self.x)
    }

    /// The lanes shuffled to `(z, x, y)`; the padding stays where it is.
    pub fn zxy(self) -> (r: Vec3)
        ensures
            r@ == self@.zxy(),
    {
        Vec3::new(self.z, self.x, self.y)
    }

    /// The vector with the sign of each component flipped. A zero changes
    /// its sign and a NaN keeps its payload.
    pub fn neg(self) -> (r: Vec3)
        ensures
            r@ == self@.neg(),
    {
        Vec3::new(negate(self.x), negate(self.y), negate(self.z))
    }

    /// The minimum component by component. Each lane is `a` where `a < b`
    /// and `b` otherwise: where either is a NaN, or both are zeros, the lane
    /// of `rhs` is taken.
    pub fn min(self, rhs: Vec3) -> (r: Vec3)
        ensures
            r@ == self@.min(rhs@),
            r@.x == spec_min(self@.x, rhs@.x),
            r@.y == spec_min(self@.y, rhs@.y),
            r@.z == spec_min(self@.z, rhs@.z),
    {
        Vec3::new(min(self.x, rhs.x), min(self.y, rhs.y), min(self.z, rhs.z))
    }

    /// The maximum component by component. Each lane is `a` where `a > b`
    /// and `b` otherwise: where either is a NaN, or both are zeros, the lane
    /// of `rhs` is taken.
    pub fn max(self, rhs: Vec3) -> (r: Vec3)
        ensures
            r@ == self@.max(rhs@),
            r@.x == spec_max(self@.x, rhs@.x),
            r@.y == spec_max(self@.y, rhs@.y),
            r@.z == spec_max(self@.z, rhs@.z),
    {
        Vec3::new(max(self.x, rhs.x), max(self.y, rhs.y), max(self.z, rhs.z))
    }

    /// The greatest of the three components. A NaN is passed over: the
    /// result is the greatest of the components that are numbers, and a NaN
    /// only if all three are. Of components that compare equal the last one
    /// is returned. The padding lane takes no part.
    pub fn horizontal_max(self) -> (r: u32)
        ensures
            r == self@.horizontal_max(),
            self@.has(r),
            spec_is_nan(r) <==> self@.all_nan(),
            !spec_less_than(r, self@.x) && !spec_less_than(r, self@.y) && !spec_less_than(
                r,
                self@.z,
            ),
    {
        max_number(max_number(self.x, self.y), self.z)
    }

    /// The least of the three components. A NaN is passed over: the result
    /// is the least of the components that are numbers, and a NaN only if
    /// all three are. Of components that compare equal the last one is
    /// returned. The padding lane takes no part.
    pub fn horizontal_min(self) -> (r: u32)
        ensures
            r == self@.horizontal_min(),
            self@.has(r),
            spec_is_nan(r) <==> self@.all_nan(),
            !spec_less_than(self@.x, r) && !spec_less_than(self@.y, r) && !spec_less_than(
                self@.z,
                r,
            ),
    {
        min_number(min_number(self.x, self.y), self.z)
    }
}

/// What went into `new` is what the accessors give back, whatever the
/// patterns are.
pub proof fn lemma_accessors_read_back(x: u32, y: u32, z: u32)
    ensures
        Vec3::new(x, y, z)@ == (Components { x, y, z }),
        Vec3::new(x, y, z).x() == x,
        Vec3::new(x, y, z).y() == y,
        Vec3::new(x, y, z).z() == z,
{
}

/// The two shuffles undo each other, and three of one kind restore the
/// vector.
pub proof fn lemma_shuffles_cycle(c: Components)
    ensures
        c.yzx().zxy() == c,
        c.zxy().yzx() == c,
        c.yzx().yzx() == c.zxy(),
        c.yzx().yzx().yzx() == c,
{
}

/// Negating twice restores every pattern.
pub proof fn lemma_neg_is_involution(c: Components)
    ensures
        c.neg().neg() == c,
{
}

/// The reductions do not depend on where a number stands: unless every
/// component is a NaN, the maximum and the minimum of a shuffled vector are
/// the same numbers as those of the vector.
pub proof fn lemma_reductions_ignore_order(c: Components)
    requires
        !c.all_nan(),
    ensures
        same_number(c.yzx().horizontal_max(), c.horizontal_max()),
        same_number(c.zxy().horizontal_max(), c.horizontal_max()),
        same_number(c.yzx().horizontal_min(), c.horizontal_min()),
        same_number(c.zxy().horizontal_min(), c.horizontal_min()),
{
}

} // verus!
