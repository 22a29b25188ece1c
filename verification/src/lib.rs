//! A three-component single-precision vector held in four lanes.
//!
//! Scalars are binary32 bit patterns (`bits`, `value`). The vector type and
//! everything that only moves or compares lanes is in `vector`; the
//! arithmetic, which hands its rounding to a scalar unit (`fpu`), is in
//! `arith`; `laws` holds what follows for the vector operations from
//! properties of the unit.
pub mod arith;
pub mod bits;
pub mod fpu;
pub mod laws;
pub mod value;
pub mod vector;

pub use crate::arith::scale;
pub use crate::fpu::ScalarOp;
pub use crate::vector::{Components, Vec3};
