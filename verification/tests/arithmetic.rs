use vec3::bits;
use vec3::{scale, ScalarOp, Vec3};

const NEG_ZERO: u32 = 0x8000_0000;

fn machine(op: ScalarOp) -> u32 {
    let r = match op {
        ScalarOp::Add(a, b) => f32::from_bits(a) + f32::from_bits(b),
        ScalarOp::Sub(a, b) => f32::from_bits(a) - f32::from_bits(b),
        ScalarOp::Mul(a, b) => f32::from_bits(a) * f32::from_bits(b),
        ScalarOp::Div(a, b) => f32::from_bits(a) / f32::from_bits(b),
        ScalarOp::Sqrt(a) => f32::from_bits(a).sqrt(),
    };
    r.to_bits()
}

fn vector(x: f32, y: f32, z: f32) -> Vec3 {
    Vec3::new(x.to_bits(), y.to_bits(), z.to_bits())
}

fn parts(v: Vec3) -> (f32, f32, f32) {
    (f32::from_bits(v.x()), f32::from_bits(v.y()), f32::from_bits(v.z()))
}

fn scalar(f: f32) -> u32 {
    f.to_bits()
}

fn vectors() -> Vec<Vec3> {
    vec![
        vector(1.0, 2.0, 3.0),
        vector(-4.0, 5.5, -6.25),
        vector(0.1, 0.2, 0.3),
        vector(1.0e-20, -3.0e15, 7.0),
        vector(0.0, -0.0, 1.0),
        vector(123.456, -654.321, 0.001),
        vector(3.0, 4.0, 0.0),
        vector(-1.0, -2.0, -3.0),
    ]
}

#[test]
fn add_is_componentwise() {
    let r = vector(1.0, 2.0, 3.0).add(vector(10.0, 20.0, 30.0), &machine);
    assert_eq!(parts(r), (11.0, 22.0, 33.0));
    let s = vector(0.1, 0.2, 0.3).add(vector(0.2, 0.1, -0.3), &machine);
    assert_eq!(parts(s), (0.1f32 + 0.2f32, 0.2f32 + 0.1f32, 0.0));
    assert_eq!(r.as_inner()[3], 0);
}

#[test]
fn sub_is_componentwise() {
    let r = vector(1.0, 2.0, 3.0).sub(vector(10.0, 20.0, 30.5), &machine);
    assert_eq!(parts(r), (-9.0, -18.0, -27.5));
    assert_eq!(r.as_inner()[3], 0);
}

#[test]
fn mul_is_componentwise() {
    let r = vector(1.5, -2.0, 3.0).mul(vector(2.0, 4.0, -0.5), &machine);
    assert_eq!(parts(r), (3.0, -8.0, -1.5));
    assert_eq!(r.as_inner()[3], 0);
}

#[test]
fn div_is_componentwise() {
    let r = vector(1.0, -9.0, 3.0).div(vector(4.0, 3.0, -0.5), &machine);
    assert_eq!(parts(r), (0.25, -3.0, -6.0));
}

#[test]
fn div_leaves_the_padding_zero() {
    let r = vector(1.0, 2.0, 3.0).div(vector(1.0, 2.0, 3.0), &machine);
    assert_eq!(r.as_inner(), [bits::ONE, bits::ONE, bits::ONE, 0]);
    assert_eq!(f32::from_bits(r.horizontal_max()), 1.0);
    assert_eq!(f32::from_bits(r.horizontal_min()), 1.0);
}

#[test]
fn div_by_zero_follows_the_unit() {
    let r = vector(1.0, -1.0, 0.0).div(Vec3::zero(), &machine);
    let (x, y, z) = parts(r);
    assert_eq!(x, f32::INFINITY);
    assert_eq!(y, f32::NEG_INFINITY);
    assert!(z.is_nan());
    let s = vector(1.0, -1.0, 0.0).div_scalar(scalar(0.0), &machine);
    let (x, y, z) = parts(s);
    assert_eq!(x, f32::INFINITY);
    assert_eq!(y, f32::NEG_INFINITY);
    assert!(z.is_nan());
}

#[test]
fn scalar_multiplication_and_division() {
    let v = vector(1.0, -2.0, 3.5);
    assert_eq!(parts(v.mul_scalar(scalar(2.0), &machine)), (2.0, -4.0, 7.0));
    assert_eq!(parts(v.div_scalar(scalar(2.0), &machine)), (0.5, -1.0, 1.75));
    assert_eq!(parts(scale(scalar(2.0), v, &machine)), (2.0, -4.0, 7.0));
}

#[test]
fn scalar_times_vector_is_vector_times_scalar() {
    for v in vectors() {
        for s in [0.0f32, -1.0, 0.3, 1.0e10, -7.25, f32::INFINITY] {
            let left = v.mul_scalar(scalar(s), &machine);
            let right = scale(scalar(s), v, &machine);
            assert_eq!(left.as_inner(), right.as_inner());
        }
    }
}

#[test]
fn addition_commutes() {
    let all = vectors();
    for &a in &all {
        for &b in &all {
            assert_eq!(a.add(b, &machine).as_inner(), b.add(a, &machine).as_inner());
        }
    }
}

#[test]
fn assigning_operators_replace_the_vector() {
    let mut v = vector(1.0, 2.0, 3.0);
    v.add_assign(vector(0.5, 0.5, 0.5), &machine);
    assert_eq!(parts(v), (1.5, 2.5, 3.5));
    v.sub_assign(vector(1.5, 0.5, 4.0), &machine);
    assert_eq!(parts(v), (0.0, 2.0, -0.5));
    v.div_assign(scalar(4.0), &machine);
    assert_eq!(parts(v), (0.0, 0.5, -0.125));
    assert_eq!(v.as_inner()[3], 0);
}

#[test]
fn assigning_operators_agree_with_the_plain_ones() {
    let all = vectors();
    for &a in &all {
        for &b in &all {
            let mut s = a;
            s.add_assign(b, &machine);
            assert_eq!(s.as_inner(), a.add(b, &machine).as_inner());
            let mut d = a;
            d.sub_assign(b, &machine);
            assert_eq!(d.as_inner(), a.sub(b, &machine).as_inner());
            let mut q = a;
            q.div_assign(b.y(), &machine);
            assert_eq!(q.as_inner(), a.div_scalar(b.y(), &machine).as_inner());
        }
    }
}

#[test]
fn dot_sums_the_products() {
    let d = vector(1.0, 2.0, 3.0).dot(vector(4.0, 5.0, 6.0), &machine);
    assert_eq!(f32::from_bits(d), 32.0);
    let e = vector(1.0, 0.0, 0.0).dot(vector(0.0, 1.0, 0.0), &machine);
    assert_eq!(f32::from_bits(e), 0.0);
}

#[test]
fn dot_sums_from_x_to_z() {
    let a = vector(1.0e8, 1.0, -1.0e8);
    let b = vector(1.0, 1.0, 1.0);
    let d = f32::from_bits(a.dot(b, &machine));
    assert_eq!(d, (1.0e8f32 + 1.0f32) + -1.0e8f32);
    assert_eq!(d, 0.0);
    let c = vector(1.0e8, -1.0e8, 1.0);
    assert_eq!(f32::from_bits(c.dot(b, &machine)), 1.0);
}

#[test]
fn dot_leaves_the_padding_out() {
    let a = vector(1.0, 2.0, 3.0).div(vector(1.0, 2.0, 3.0), &machine);
    assert_eq!(f32::from_bits(a.dot(a, &machine)), 3.0);
}

#[test]
fn self_dot_is_magnitude_squared() {
    for v in vectors() {
        assert_eq!(v.dot(v, &machine), v.magnitude_squared(&machine));
    }
    assert_eq!(f32::from_bits(vector(1.0, 2.0, 3.0).magnitude_squared(&machine)), 14.0);
}

#[test]
fn magnitude_is_the_root() {
    assert_eq!(f32::from_bits(vector(3.0, 4.0, 0.0).magnitude(&machine)), 5.0);
    assert_eq!(f32::from_bits(vector(2.0, 3.0, 6.0).magnitude(&machine)), 7.0);
    assert_eq!(f32::from_bits(Vec3::zero().magnitude(&machine)), 0.0);
    for v in vectors() {
        let m = f32::from_bits(v.magnitude_squared(&machine)).sqrt();
        assert_eq!(f32::from_bits(v.magnitude(&machine)), m);
    }
}

#[test]
fn normalize_divides_by_the_magnitude() {
    assert_eq!(parts(vector(3.0, 0.0, 4.0).normalize(&machine)), (0.6, 0.0, 0.8));
    assert_eq!(parts(vector(0.0, -2.0, 0.0).normalize(&machine)), (0.0, -1.0, 0.0));
}

#[test]
fn normalized_vectors_have_unit_magnitude() {
    for v in vectors() {
        let m = f32::from_bits(v.normalize(&machine).magnitude(&machine));
        assert!((m - 1.0).abs() <= 1.0e-5, "{}", m);
    }
}

#[test]
fn normalize_of_zero_is_nan() {
    let (x, y, z) = parts(Vec3::zero().normalize(&machine));
    assert!(x.is_nan() && y.is_nan() && z.is_nan());
    assert_eq!(Vec3::zero().normalize(&machine).as_inner()[3], 0);
}

#[test]
fn cross_of_basis_vectors() {
    let i = vector(1.0, 0.0, 0.0);
    let j = vector(0.0, 1.0, 0.0);
    let k = vector(0.0, 0.0, 1.0);
    assert_eq!(parts(i.cross(j, &machine)), (0.0, 0.0, 1.0));
    assert_eq!(parts(j.cross(k, &machine)), (1.0, 0.0, 0.0));
    assert_eq!(parts(k.cross(i, &machine)), (0.0, 1.0, 0.0));
    assert_eq!(parts(j.cross(i, &machine)), (0.0, 0.0, -1.0));
}

#[test]
fn cross_follows_the_formula() {
    assert_eq!(parts(vector(1.0, 2.0, 3.0).cross(vector(4.0, 5.0, 6.0), &machine)), (-3.0, 6.0, -3.0));
    let all = vectors();
    for &a in &all {
        for &b in &all {
            let (ax, ay, az) = parts(a);
            let (bx, by, bz) = parts(b);
            let c = parts(a.cross(b, &machine));
            assert_eq!(c.0.to_bits(), (ay * bz - az * by).to_bits());
            assert_eq!(c.1.to_bits(), (az * bx - ax * bz).to_bits());
            assert_eq!(c.2.to_bits(), (ax * by - ay * bx).to_bits());
        }
    }
}

#[test]
fn cross_changes_sign_when_swapped() {
    let all = vectors();
    for &a in &all {
        for &b in &all {
            let forth = parts(a.cross(b, &machine));
            let back = parts(b.cross(a, &machine).neg());
            assert_eq!(forth, back);
        }
    }
}

#[test]
fn cross_of_parallel_vectors_vanishes() {
    for v in [vector(1.0, 2.0, 3.0), vector(-4.0, 5.5, -6.25), vector(0.1, 0.2, 0.3), vector(3.0, 4.0, 0.0)] {
        for k in [0.0f32, 1.0, -2.0, 0.5, 3.0, 1.0e3] {
            let w = v.mul_scalar(scalar(k), &machine);
            let (x, y, z) = parts(v.cross(w, &machine));
            let size = f32::from_bits(v.magnitude(&machine)) * f32::from_bits(w.magnitude(&machine));
            let tolerance = 1.0e-6 * size;
            assert!(x.abs() <= tolerance && y.abs() <= tolerance && z.abs() <= tolerance);
        }
    }
    assert_eq!(parts(vector(1.0, 2.0, 3.0).cross(vector(2.0, 4.0, 6.0), &machine)), (0.0, 0.0, 0.0));
}

#[test]
fn cross_leaves_the_padding_zero() {
    let a = vector(1.0, 2.0, 3.0);
    let b = vector(-4.0, 5.5, -6.25);
    assert_eq!(a.cross(b, &machine).as_inner()[3], 0);
}

#[test]
fn reciprocal_is_close_to_the_quotient() {
    let bound = 1.5 / 4096.0;
    let inputs = [
        1.0f32, -1.0, 2.0, 3.0, -3.0, 0.1, 7.5, 1.0e-3, -1.0e-3, 12345.678, 1.0e10, -1.0e10,
        1.0e-10, 0.333333, 5.0e20, 1.9999999, 1.0e-30, 1.0e30,
    ];
    for &a in &inputs {
        for &b in &inputs {
            let r = Vec3::new(scalar(a), scalar(b), scalar(-a)).reciprocal(&machine);
            let (x, y, z) = parts(r);
            assert!(((x - 1.0 / a) / (1.0 / a)).abs() < bound, "{} {}", a, x);
            assert!(((y - 1.0 / b) / (1.0 / b)).abs() < bound, "{} {}", b, y);
            assert!(((z + 1.0 / a) / (1.0 / a)).abs() < bound, "{} {}", a, z);
        }
    }
}

#[test]
fn reciprocal_is_the_coarsened_quotient() {
    let r = vector(3.0, 1.0, -7.0).reciprocal(&machine);
    assert_eq!(r.x(), (1.0f32 / 3.0).to_bits() & 0xffff_f800);
    assert_eq!(r.x(), 0x3eaa_a800);
    assert_ne!(r.x(), (1.0f32 / 3.0).to_bits());
    assert_eq!(r.y(), bits::ONE);
    assert_eq!(r.z(), (1.0f32 / -7.0).to_bits() & 0xffff_f800);
    assert_eq!(r.as_inner()[3], 0);
}

#[test]
fn reciprocal_of_zero_and_infinity() {
    let r = vector(0.0, -0.0, f32::INFINITY).reciprocal(&machine);
    assert_eq!(parts(r), (f32::INFINITY, f32::NEG_INFINITY, 0.0));
    let n = Vec3::new(0x7fc0_0000, 0x7f80_0001, NEG_ZERO).reciprocal(&machine);
    assert!(bits::is_nan(n.x()));
    assert!(bits::is_nan(n.y()));
}

#[test]
fn answers_come_from_the_unit() {
    let seven = |_op: ScalarOp| 7u32;
    let v = vector(1.0, 2.0, 3.0);
    assert_eq!(v.add(v, &seven).as_inner(), [7, 7, 7, 0]);
    assert_eq!(v.dot(v, &seven), 7);
    assert_eq!(v.magnitude(&seven), 7);
    assert_eq!(v.cross(v, &seven).as_inner(), [7, 7, 7, 0]);
    assert_eq!(v.reciprocal(&seven).as_inner(), [0, 0, 0, 0]);
    let first = |op: ScalarOp| match op {
        ScalarOp::Add(a, _) => a,
        ScalarOp::Sub(a, _) => a,
        ScalarOp::Mul(a, _) => a,
        ScalarOp::Div(a, _) => a,
        ScalarOp::Sqrt(a) => a,
    };
    let w = Vec3::new(10, 20, 30);
    let u = Vec3::new(1, 2, 3);
    assert_eq!(w.sub(u, &first).as_inner(), [10, 20, 30, 0]);
    assert_eq!(u.div(w, &first).as_inner(), [1, 2, 3, 0]);
    assert_eq!(w.dot(u, &first), 10);
    assert_eq!(w.cross(u, &first).as_inner(), [20, 30, 10, 0]);
    assert_eq!(scale(5, w, &first).as_inner(), [10, 20, 30, 0]);
}
