//! The vector, matrix and quaternion types over single and double precision
//! floats.

use glmath::glmath::mat22::Mat22;
use glmath::glmath::mat33::Mat33;
use glmath::glmath::mat44::Mat44;
use glmath::glmath::quat::Quat;
use glmath::glmath::vec2::Vec2;
use glmath::glmath::vec3::Vec3;
use glmath::glmath::vec4::Vec4;
use glmath::glmath::vectorable::Vectorable;
use glmath::glmath::StandardMat44;
use glmath::glmath::StandardVec;
use glmath::glmath::TwoDimSwizzle;
use std::f32::consts::PI;

/// Single precision floats as a scalar.
#[derive(Debug, Clone, Copy, PartialEq, PartialOrd)]
struct F32(f32);

/// The operations are those of `f32`; what each one is in contracts is
/// that same operation.
impl Vectorable for F32 {
    fn zero_spec() -> Self {
        F32(0.0)
    }

    fn one_spec() -> Self {
        F32(1.0)
    }

    fn two_spec() -> Self {
        F32(2.0)
    }

    fn half_spec() -> Self {
        F32(0.5)
    }

    fn quarter_spec() -> Self {
        F32(0.25)
    }

    fn pi_spec() -> Self {
        F32(3.1415926)
    }

    fn add_spec(self, rhs: Self) -> Self {
        F32(self.0 + rhs.0)
    }

    fn sub_spec(self, rhs: Self) -> Self {
        F32(self.0 - rhs.0)
    }

    fn mul_spec(self, rhs: Self) -> Self {
        F32(self.0 * rhs.0)
    }

    fn div_spec(self, rhs: Self) -> Self {
        F32(self.0 / rhs.0)
    }

    fn neg_spec(self) -> Self {
        F32(-self.0)
    }

    fn eq_spec(self, rhs: Self) -> bool {
        self.0 == rhs.0
    }

    fn lt_spec(self, rhs: Self) -> bool {
        self.0 < rhs.0
    }

    fn le_spec(self, rhs: Self) -> bool {
        self.0 <= rhs.0
    }

    fn sqrt_spec(self) -> Self {
        F32(self.0.sqrt())
    }

    fn sin_spec(self) -> Self {
        F32(self.0.sin())
    }

    fn cos_spec(self) -> Self {
        F32(self.0.cos())
    }

    fn asin_spec(self) -> Self {
        F32(self.0.asin())
    }

    fn acos_spec(self) -> Self {
        F32(self.0.acos())
    }

    fn atan2_spec(a: Self, b: Self) -> Self {
        F32(a.0.atan2(b.0))
    }

    fn zero() -> Self {
        F32(0.0)
    }

    fn one() -> Self {
        F32(1.0)
    }

    fn two() -> Self {
        F32(2.0)
    }

    fn half() -> Self {
        F32(0.5)
    }

    fn quarter() -> Self {
        F32(0.25)
    }

    fn pi() -> Self {
        F32(3.1415926)
    }

    fn add(self, rhs: Self) -> Self {
        F32(self.0 + rhs.0)
    }

    fn sub(self, rhs: Self) -> Self {
        F32(self.0 - rhs.0)
    }

    fn mul(self, rhs: Self) -> Self {
        F32(self.0 * rhs.0)
    }

    fn div(self, rhs: Self) -> Self {
        F32(self.0 / rhs.0)
    }

    fn neg(self) -> Self {
        F32(-self.0)
    }

    fn eq(self, rhs: Self) -> bool {
        self.0 == rhs.0
    }

    fn lt(self, rhs: Self) -> bool {
        self.0 < rhs.0
    }

    fn le(self, rhs: Self) -> bool {
        self.0 <= rhs.0
    }

    fn sqrt(&self) -> Self {
        F32(self.0.sqrt())
    }

    fn sin(&self) -> Self {
        F32(self.0.sin())
    }

    fn cos(&self) -> Self {
        F32(self.0.cos())
    }

    fn asin(&self) -> Self {
        F32(self.0.asin())
    }

    fn acos(&self) -> Self {
        F32(self.0.acos())
    }

    fn atan2(a: Self, b: Self) -> Self {
        F32(a.0.atan2(b.0))
    }
}

impl PartialEq<f32> for F32 {
    fn eq(&self, other: &f32) -> bool {
        self.0 == *other
    }
}

/// Double precision floats as a scalar.
#[derive(Debug, Clone, Copy, PartialEq, PartialOrd)]
struct F64(f64);

/// The operations are those of `f64`; what each one is in contracts is
/// that same operation.
impl Vectorable for F64 {
    fn zero_spec() -> Self {
        F64(0.0)
    }

    fn one_spec() -> Self {
        F64(1.0)
    }

    fn two_spec() -> Self {
        F64(2.0)
    }

    fn half_spec() -> Self {
        F64(0.5)
    }

    fn quarter_spec() -> Self {
        F64(0.25)
    }

    fn pi_spec() -> Self {
        F64(3.1415926)
    }

    fn add_spec(self, rhs: Self) -> Self {
        F64(self.0 + rhs.0)
    }

    fn sub_spec(self, rhs: Self) -> Self {
        F64(self.0 - rhs.0)
    }

    fn mul_spec(self, rhs: Self) -> Self {
        F64(self.0 * rhs.0)
    }

    fn div_spec(self, rhs: Self) -> Self {
        F64(self.0 / rhs.0)
    }

    fn neg_spec(self) -> Self {
        F64(-self.0)
    }

    fn eq_spec(self, rhs: Self) -> bool {
        self.0 == rhs.0
    }

    fn lt_spec(self, rhs: Self) -> bool {
        self.0 < rhs.0
    }

    fn le_spec(self, rhs: Self) -> bool {
        self.0 <= rhs.0
    }

    fn sqrt_spec(self) -> Self {
        F64(self.0.sqrt())
    }

    fn sin_spec(self) -> Self {
        F64(self.0.sin())
    }

    fn cos_spec(self) -> Self {
        F64(self.0.cos())
    }

    fn asin_spec(self) -> Self {
        F64(self.0.asin())
    }

    fn acos_spec(self) -> Self {
        F64(self.0.acos())
    }

    fn atan2_spec(a: Self, b: Self) -> Self {
        F64(a.0.atan2(b.0))
    }

    fn zero() -> Self {
        F64(0.0)
    }

    fn one() -> Self {
        F64(1.0)
    }

    fn two() -> Self {
        F64(2.0)
    }

    fn half() -> Self {
        F64(0.5)
    }

    fn quarter() -> Self {
        F64(0.25)
    }

    fn pi() -> Self {
        F64(3.1415926)
    }

    fn add(self, rhs: Self) -> Self {
        F64(self.0 + rhs.0)
    }

    fn sub(self, rhs: Self) -> Self {
        F64(self.0 - rhs.0)
    }

    fn mul(self, rhs: Self) -> Self {
        F64(self.0 * rhs.0)
    }

    fn div(self, rhs: Self) -> Self {
        F64(self.0 / rhs.0)
    }

    fn neg(self) -> Self {
        F64(-self.0)
    }

    fn eq(self, rhs: Self) -> bool {
        self.0 == rhs.0
    }

    fn lt(self, rhs: Self) -> bool {
        self.0 < rhs.0
    }

    fn le(self, rhs: Self) -> bool {
        self.0 <= rhs.0
    }

    fn sqrt(&self) -> Self {
        F64(self.0.sqrt())
    }

    fn sin(&self) -> Self {
        F64(self.0.sin())
    }

    fn cos(&self) -> Self {
        F64(self.0.cos())
    }

    fn asin(&self) -> Self {
        F64(self.0.asin())
    }

    fn acos(&self) -> Self {
        F64(self.0.acos())
    }

    fn atan2(a: Self, b: Self) -> Self {
        F64(a.0.atan2(b.0))
    }
}

impl PartialEq<f64> for F64 {
    fn eq(&self, other: &f64) -> bool {
        self.0 == *other
    }
}

type Vec2f = Vec2<F32>;
type Vec3f = Vec3<F32>;
type Vec4f = Vec4<F32>;
type Quatf = Quat<F32>;
type Mat22f = Mat22<F32>;
type Mat33f = Mat33<F32>;
type Mat44f = Mat44<F32>;

const DELTA: f64 = 0.00001;

fn assert_delta(x: f64, y: f64, d: f64) {
    if !(x - y < d || y - x < d) {
        panic!();
    }
}

fn vec2f(x: f32, y: f32) -> Vec2f {
    Vec2f::new(F32(x), F32(y))
}

fn vec3f(x: f32, y: f32, z: f32) -> Vec3f {
    Vec3f::new(F32(x), F32(y), F32(z))
}

fn vec4f(x: f32, y: f32, z: f32, w: f32) -> Vec4f {
    Vec4f::new(F32(x), F32(y), F32(z), F32(w))
}

fn quatf(x: f32, y: f32, z: f32, w: f32) -> Quatf {
    Quatf::new(F32(x), F32(y), F32(z), F32(w))
}

#[test]
fn test_vec2() {
    let v1 = vec2f(10.0, 0.0);
    let v2 = vec2f(1.0, 1.0).get_normalized();
    let zero = Vec2f::zero();

    assert_eq!(v1.yx().yx(), v1);
    assert_eq!(v1.length(), 10.0);
    assert_eq!(v1.get_normalized().length(), 1.0);
    // Vectors compare by length alone, and these two are equally long: they
    // differ in their components.
    let v3 = v2 * F32(10.0);
    assert_ne!((v1.x, v1.y), (v3.x, v3.y));

    assert_eq!(zero.length(), 0.0);
    // Without the test of the length this would divide by zero.
    assert_eq!(zero, zero.get_normalized());

    // The angle between any two axes is a quarter turn.
    assert_eq!(Vec2f::unit_x().angle_between(&Vec2f::unit_y()), (2.0 * PI) / 4.0);

    // Dot product.
    let a = vec2f(1.0, 1.0);
    let b = vec2f(1.0, 1.0);
    assert_eq!(a * b, 2.0);
}

#[test]
fn test_vec3() {
    let v1 = vec3f(10.0, 0.0, 0.0);
    let v2 = vec3f(1.0, 1.0, 0.0).get_normalized();
    let zero = Vec3f::zero();

    assert_eq!(v1.yx().yx(), v1.xy());
    assert_eq!(v1.length(), 10.0);
    assert_eq!(v1.get_normalized().length(), 1.0);
    // Vectors compare by length alone, and these two are equally long: they
    // differ in their components.
    let v3 = v2 * F32(10.0);
    assert_ne!((v1.x, v1.y), (v3.x, v3.y));

    assert_eq!(zero.length(), 0.0);
    // Without the test of the length this would divide by zero.
    assert_eq!(zero, zero.get_normalized());

    // The angle between any two axes is a quarter turn.
    assert_eq!(Vec3f::unit_x().angle_between(&Vec3f::unit_y()), (2.0 * PI) / 4.0);

    // Cross product.
    let cross = v1 % vec3f(1.0, 1.0, 0.0);
    assert_eq!(vec3f(0.0, 0.0, 10.0), cross);

    let cross = vec3f(32.0, 1.4, 30.0) % vec3f(10.0, 10.1, 22.0);
    assert_eq!(vec3f(-272.2, -404.0, 309.2), cross);

    assert_eq!(Vec3f::zero() % Vec3f::zero(), Vec3f::zero());
}

#[test]
fn test_vec4() {
    let v1 = vec4f(10.0, 0.0, 0.0, 0.0);
    let v2 = vec4f(1.0, 1.0, 0.0, 0.0).get_normalized();
    let zero = Vec4f::zero();

    assert_eq!(v1.yx().yx(), v1.xy());
    assert_eq!(v1.length(), 10.0);
    assert_eq!(v1.get_normalized().length(), 1.0);
    // Vectors compare by length alone, and these two are equally long: they
    // differ in their components.
    let v3 = v2 * F32(10.0);
    assert_ne!((v1.x, v1.y), (v3.x, v3.y));

    assert_eq!(zero.length(), 0.0);
    // Without the test of the length this would divide by zero.
    assert_eq!(zero, zero.get_normalized());

    // The angle between any two axes is a quarter turn.
    assert_eq!(Vec2f::unit_x().angle_between(&Vec2f::unit_y()), (2.0 * PI) / 4.0);
}

#[test]
fn test_quat() {
    assert_eq!(Quatf::identity(), quatf(0.0, 0.0, 0.0, 1.0));
    assert_eq!(Quatf::zero(), quatf(0.0, 0.0, 0.0, 0.0));

    // Inversion.
    let q = quatf(1.0, 0.0, 0.0, 0.0);
    assert_eq!(q, q.get_inverted());

    let q = quatf(10.0, 13.0, 2.0, 1.0);
    assert_eq!(quatf(0.60412204, -0.7853587, -0.12082442, -0.06041221), q.get_inverted());

    // The conversions between the ways to write a rotation.
    let q = Quat::<F64>::from_axis_angle(Vec3::<F64>::new(F64(1.0), F64(0.0), F64(0.0)), F64(0.1));

    assert_delta(q.x.0, 0.4997916927067833, DELTA);
    assert_delta(q.y.0, 0.0, DELTA);
    assert_delta(q.z.0, 0.0, DELTA);
    assert_delta(q.w.0, 0.9987502603949663, DELTA);

    // To a matrix and back.
    let as_mat = q.to_matrix();
    let q2 = Quat::<F64>::from_matrix(&as_mat);
    assert_delta(q.x.0, q2.x.0, DELTA);
    assert_delta(q.y.0, q2.y.0, DELTA);
    assert_delta(q.z.0, q2.z.0, DELTA);
    assert_delta(q.w.0, q2.w.0, DELTA);

    // Euler angles.
    let euler = q.to_euler();
    assert_delta(euler.x.0, 0.1, DELTA);
    assert_delta(euler.y.0, 0.0, DELTA);
    assert_delta(euler.z.0, 0.0, DELTA);

    // From Euler angles back to the quaternion.
    let q2 = Quat::<F64>::from_euler_angles(euler);
    assert_delta(q.x.0, q2.x.0, DELTA);
    assert_delta(q.y.0, q2.y.0, DELTA);
    assert_delta(q.z.0, q2.z.0, DELTA);
    assert_delta(q.w.0, q2.w.0, DELTA);
}

#[test]
fn test_mat22() {
    let a = Mat22f::new();
    let b = Mat22f::new();

    // Identity times identity is the identity.
    assert_eq!(a, b);
    assert_eq!(a, Mat22f::identity());
    assert_eq!(a * b, Mat22f::identity());

    // The identity leaves a vector as it is.
    assert_eq!(Mat22f::identity() * vec2f(1.0, 1.0), vec2f(1.0, 1.0));

    // Scale a vector by two along x and by a half along y.
    let scale_mat = Mat22f::from_axes(vec2f(2.0, 0.0), vec2f(0.0, 0.5));
    let scaled_vec = scale_mat * vec2f(1.0, 1.0);
    assert_eq!(scaled_vec, vec2f(2.0, 0.5));

    // The identity leaves a matrix as it is.
    assert_eq!(Mat22f::identity() * scale_mat, scale_mat);
}

#[test]
fn test_mat33() {
    let a = Mat33f::new();
    let b = Mat33f::new();

    // Identity times identity is the identity.
    assert_eq!(a, b);
    assert_eq!(a, Mat33f::identity());
    assert_eq!(a * b, Mat33f::identity());

    // The identity leaves a vector as it is.
    assert_eq!(Mat33f::identity() * vec3f(1.0, 1.0, 1.0), vec3f(1.0, 1.0, 1.0));

    // Scale a vector by two along x and by a half along y.
    let scale_mat =
        Mat33f::from_axes(vec3f(2.0, 0.0, 0.0), vec3f(0.0, 0.5, 0.0), vec3f(0.0, 0.0, 1.0));

    let scaled_vec = scale_mat * vec3f(1.0, 1.0, 1.0);
    assert_eq!(scaled_vec, vec3f(2.0, 0.5, 1.0));

    // The identity leaves a matrix as it is.
    assert_eq!(Mat33f::identity() * scale_mat, scale_mat);
}

#[test]
fn test_mat44() {
    let a = Mat44f::new();
    let b = Mat44f::new();

    // Identity times identity is the identity.
    assert_eq!(a, b);
    assert_eq!(a, Mat44f::identity());
    assert_eq!(a * b, Mat44f::identity());

    // The identity leaves a vector as it is.
    assert_eq!(Mat44f::identity() * vec4f(1.0, 1.0, 1.0, 1.0), vec4f(1.0, 1.0, 1.0, 1.0));

    // Scale a vector by two along x and by a half along y.
    let scale_mat = Mat44f::identity().get_scaled(vec3f(2.0, 0.5, 1.0));

    let scaled_vec = scale_mat * vec4f(1.0, 1.0, 1.0, 1.0);
    assert_eq!(scaled_vec, vec4f(2.0, 0.5, 1.0, 1.0));

    // The identity leaves a matrix as it is.
    assert_eq!(Mat44f::identity() * scale_mat, scale_mat);
}
