//! Every operation on values whose results can be written down: exact ones
//! where the arithmetic is exact, and ones within a tolerance elsewhere.

use glmath::glmath::mat22::Mat22;
use glmath::glmath::mat33::Mat33;
use glmath::glmath::mat44::det33;
use glmath::glmath::mat44::Mat44;
use glmath::glmath::quat::Quat;
use glmath::glmath::vec2::Vec2;
use glmath::glmath::vec3::Vec3;
use glmath::glmath::vec4::Vec4;
use glmath::glmath::vectorable::Vectorable;
use glmath::glmath::FourDimSwizzle;
use glmath::glmath::QuaternionSwizzle;
use glmath::glmath::StandardMat;
use glmath::glmath::StandardMat44;
use glmath::glmath::StandardQuat;
use glmath::glmath::StandardVec;
use glmath::glmath::ThreeDimSwizzle;
use glmath::glmath::TwoDimSwizzle;
use std::cmp::Ordering;

/// Double precision floats as a scalar.
#[derive(Debug, Clone, Copy, PartialEq, PartialOrd)]
struct F64(f64);

/// The operations are those of `f64`; what each one is in contracts is
/// that same operation.
impl Vectorable for F64 {
    fn zero_spec() -> Self {
        F64(0.0)
    }

    fn one_spec() -> Self {
        F64(1.0)
    }

    fn two_spec() -> Self {
        F64(2.0)
    }

    fn half_spec() -> Self {
        F64(0.5)
    }

    fn quarter_spec() -> Self {
        F64(0.25)
    }

    fn pi_spec() -> Self {
        F64(3.1415926)
    }

    fn add_spec(self, rhs: Self) -> Self {
        F64(self.0 + rhs.0)
    }

    fn sub_spec(self, rhs: Self) -> Self {
        F64(self.0 - rhs.0)
    }

    fn mul_spec(self, rhs: Self) -> Self {
        F64(self.0 * rhs.0)
    }

    fn div_spec(self, rhs: Self) -> Self {
        F64(self.0 / rhs.0)
    }

    fn neg_spec(self) -> Self {
        F64(-self.0)
    }

    fn eq_spec(self, rhs: Self) -> bool {
        self.0 == rhs.0
    }

    fn lt_spec(self, rhs: Self) -> bool {
        self.0 < rhs.0
    }

    fn le_spec(self, rhs: Self) -> bool {
        self.0 <= rhs.0
    }

    fn sqrt_spec(self) -> Self {
        F64(self.0.sqrt())
    }

    fn sin_spec(self) -> Self {
        F64(self.0.sin())
    }

    fn cos_spec(self) -> Self {
        F64(self.0.cos())
    }

    fn asin_spec(self) -> Self {
        F64(self.0.asin())
    }

    fn acos_spec(self) -> Self {
        F64(self.0.acos())
    }

    fn atan2_spec(a: Self, b: Self) -> Self {
        F64(a.0.atan2(b.0))
    }

    fn zero() -> Self {
        F64(0.0)
    }

    fn one() -> Self {
        F64(1.0)
    }

    fn two() -> Self {
        F64(2.0)
    }

    fn half() -> Self {
        F64(0.5)
    }

    fn quarter() -> Self {
        F64(0.25)
    }

    fn pi() -> Self {
        F64(3.1415926)
    }

    fn add(self, rhs: Self) -> Self {
        F64(self.0 + rhs.0)
    }

    fn sub(self, rhs: Self) -> Self {
        F64(self.0 - rhs.0)
    }

    fn mul(self, rhs: Self) -> Self {
        F64(self.0 * rhs.0)
    }

    fn div(self, rhs: Self) -> Self {
        F64(self.0 / rhs.0)
    }

    fn neg(self) -> Self {
        F64(-self.0)
    }

    fn eq(self, rhs: Self) -> bool {
        self.0 == rhs.0
    }

    fn lt(self, rhs: Self) -> bool {
        self.0 < rhs.0
    }

    fn le(self, rhs: Self) -> bool {
        self.0 <= rhs.0
    }

    fn sqrt(&self) -> Self {
        F64(self.0.sqrt())
    }

    fn sin(&self) -> Self {
        F64(self.0.sin())
    }

    fn cos(&self) -> Self {
        F64(self.0.cos())
    }

    fn asin(&self) -> Self {
        F64(self.0.asin())
    }

    fn acos(&self) -> Self {
        F64(self.0.acos())
    }

    fn atan2(a: Self, b: Self) -> Self {
        F64(a.0.atan2(b.0))
    }
}

type V2 = Vec2<F64>;
type V3 = Vec3<F64>;
type V4 = Vec4<F64>;
type Q = Quat<F64>;
type M2 = Mat22<F64>;
type M3 = Mat33<F64>;
type M4 = Mat44<F64>;

const TOLERANCE: f64 = 1e-9;

fn v2(x: f64, y: f64) -> V2 {
    V2::new(F64(x), F64(y))
}

fn v3(x: f64, y: f64, z: f64) -> V3 {
    V3::new(F64(x), F64(y), F64(z))
}

fn v4(x: f64, y: f64, z: f64, w: f64) -> V4 {
    V4::new(F64(x), F64(y), F64(z), F64(w))
}

fn quat(x: f64, y: f64, z: f64, w: f64) -> Q {
    Q::new(F64(x), F64(y), F64(z), F64(w))
}

/// The matrix with the given rows, as one writes a matrix on paper.
fn m2(rows: [[f64; 2]; 2]) -> M2 {
    M2::from_axes(v2(rows[0][0], rows[1][0]), v2(rows[0][1], rows[1][1]))
}

fn m3(rows: [[f64; 3]; 3]) -> M3 {
    M3::from_axes(
        v3(rows[0][0], rows[1][0], rows[2][0]),
        v3(rows[0][1], rows[1][1], rows[2][1]),
        v3(rows[0][2], rows[1][2], rows[2][2]),
    )
}

fn m4(rows: [[f64; 4]; 4]) -> M4 {
    M4::from_axes(
        v4(rows[0][0], rows[1][0], rows[2][0], rows[3][0]),
        v4(rows[0][1], rows[1][1], rows[2][1], rows[3][1]),
        v4(rows[0][2], rows[1][2], rows[2][2], rows[3][2]),
        v4(rows[0][3], rows[1][3], rows[2][3], rows[3][3]),
    )
}

fn rows2(m: &M2) -> [[f64; 2]; 2] {
    let mut rows = [[0.0; 2]; 2];
    for r in 0..2 {
        for c in 0..2 {
            rows[r][c] = m.entry(c, r).0;
        }
    }
    rows
}

fn rows3(m: &M3) -> [[f64; 3]; 3] {
    let mut rows = [[0.0; 3]; 3];
    for r in 0..3 {
        for c in 0..3 {
            rows[r][c] = m.entry(c, r).0;
        }
    }
    rows
}

fn rows4(m: &M4) -> [[f64; 4]; 4] {
    let mut rows = [[0.0; 4]; 4];
    for r in 0..4 {
        for c in 0..4 {
            rows[r][c] = m.entry(c, r).0;
        }
    }
    rows
}

fn parts2(v: V2) -> [f64; 2] {
    [v.x.0, v.y.0]
}

fn parts3(v: V3) -> [f64; 3] {
    [v.x.0, v.y.0, v.z.0]
}

fn parts4(v: V4) -> [f64; 4] {
    [v.x.0, v.y.0, v.z.0, v.w.0]
}

fn partsq(q: Q) -> [f64; 4] {
    [q.x.0, q.y.0, q.z.0, q.w.0]
}

fn assert_close(got: f64, want: f64) {
    assert!((got - want).abs() < TOLERANCE, "got {got}, want {want}");
}

fn assert_all_close(got: &[f64], want: &[f64]) {
    assert_eq!(got.len(), want.len());
    for i in 0..got.len() {
        assert!((got[i] - want[i]).abs() < TOLERANCE, "at {i}: got {got:?}, want {want:?}");
    }
}

// Vectors.

#[test]
fn vector_constants() {
    assert_eq!(parts2(V2::zero()), [0.0, 0.0]);
    assert_eq!(parts2(V2::unit_x()), [1.0, 0.0]);
    assert_eq!(parts2(V2::unit_y()), [0.0, 1.0]);
    assert_eq!(parts3(V3::zero()), [0.0, 0.0, 0.0]);
    assert_eq!(parts3(V3::unit_x()), [1.0, 0.0, 0.0]);
    assert_eq!(parts3(V3::unit_y()), [0.0, 1.0, 0.0]);
    assert_eq!(parts3(V3::unit_z()), [0.0, 0.0, 1.0]);
    assert_eq!(parts4(V4::zero()), [0.0, 0.0, 0.0, 0.0]);
    assert_eq!(parts4(V4::unit_x()), [1.0, 0.0, 0.0, 0.0]);
    assert_eq!(parts4(V4::unit_y()), [0.0, 1.0, 0.0, 0.0]);
    assert_eq!(parts4(V4::unit_z()), [0.0, 0.0, 1.0, 0.0]);
    assert_eq!(parts4(V4::unit_w()), [0.0, 0.0, 0.0, 1.0]);
    assert_eq!(parts2(V2::default()), [0.0, 0.0]);
    assert_eq!(parts3(V3::default()), [0.0, 0.0, 0.0]);
    assert_eq!(parts4(V4::default()), [0.0, 0.0, 0.0, 0.0]);
}

#[test]
fn vector_arithmetic_is_componentwise() {
    assert_eq!(parts2(v2(1.0, 2.0) + v2(10.0, 20.0)), [11.0, 22.0]);
    assert_eq!(parts2(v2(1.0, 2.0) - v2(10.0, 20.0)), [-9.0, -18.0]);
    assert_eq!(parts2(-v2(1.0, -2.0)), [-1.0, 2.0]);
    assert_eq!(parts2(v2(1.0, 2.0) * F64(3.0)), [3.0, 6.0]);
    assert_eq!(parts2(v2(1.0, 2.0) / F64(4.0)), [0.25, 0.5]);

    assert_eq!(parts3(v3(1.0, 2.0, 3.0) + v3(10.0, 20.0, 30.0)), [11.0, 22.0, 33.0]);
    assert_eq!(parts3(v3(1.0, 2.0, 3.0) - v3(10.0, 20.0, 30.0)), [-9.0, -18.0, -27.0]);
    assert_eq!(parts3(-v3(1.0, -2.0, 3.0)), [-1.0, 2.0, -3.0]);
    assert_eq!(parts3(v3(1.0, 2.0, 3.0) * F64(3.0)), [3.0, 6.0, 9.0]);
    assert_eq!(parts3(v3(1.0, 2.0, 3.0) / F64(4.0)), [0.25, 0.5, 0.75]);

    assert_eq!(
        parts4(v4(1.0, 2.0, 3.0, 4.0) + v4(10.0, 20.0, 30.0, 40.0)),
        [11.0, 22.0, 33.0, 44.0]
    );
    assert_eq!(
        parts4(v4(1.0, 2.0, 3.0, 4.0) - v4(10.0, 20.0, 30.0, 40.0)),
        [-9.0, -18.0, -27.0, -36.0]
    );
    assert_eq!(parts4(-v4(1.0, -2.0, 3.0, -4.0)), [-1.0, 2.0, -3.0, 4.0]);
    assert_eq!(parts4(v4(1.0, 2.0, 3.0, 4.0) * F64(3.0)), [3.0, 6.0, 9.0, 12.0]);
    assert_eq!(parts4(v4(1.0, 2.0, 3.0, 4.0) / F64(4.0)), [0.25, 0.5, 0.75, 1.0]);
}

#[test]
fn vector_assigning_operators_match_the_plain_ones() {
    let mut a = v2(1.0, 2.0);
    a += v2(10.0, 20.0);
    assert_eq!(parts2(a), [11.0, 22.0]);
    a -= v2(1.0, 2.0);
    assert_eq!(parts2(a), [10.0, 20.0]);
    a *= F64(2.0);
    assert_eq!(parts2(a), [20.0, 40.0]);
    a /= F64(8.0);
    assert_eq!(parts2(a), [2.5, 5.0]);

    let mut b = v3(1.0, 2.0, 3.0);
    b += v3(10.0, 20.0, 30.0);
    assert_eq!(parts3(b), [11.0, 22.0, 33.0]);
    b -= v3(1.0, 2.0, 3.0);
    assert_eq!(parts3(b), [10.0, 20.0, 30.0]);
    b *= F64(2.0);
    assert_eq!(parts3(b), [20.0, 40.0, 60.0]);
    b /= F64(8.0);
    assert_eq!(parts3(b), [2.5, 5.0, 7.5]);

    let mut c = v4(1.0, 2.0, 3.0, 4.0);
    c += v4(10.0, 20.0, 30.0, 40.0);
    assert_eq!(parts4(c), [11.0, 22.0, 33.0, 44.0]);
    c -= v4(1.0, 2.0, 3.0, 4.0);
    assert_eq!(parts4(c), [10.0, 20.0, 30.0, 40.0]);
    c *= F64(2.0);
    assert_eq!(parts4(c), [20.0, 40.0, 60.0, 80.0]);
    c /= F64(8.0);
    assert_eq!(parts4(c), [2.5, 5.0, 7.5, 10.0]);
}

#[test]
fn dot_product_sums_the_products() {
    assert_eq!((v2(1.0, 2.0) * v2(3.0, 4.0)).0, 11.0);
    assert_eq!((v3(1.0, 2.0, 3.0) * v3(4.0, 5.0, 6.0)).0, 32.0);
    assert_eq!((v4(1.0, 2.0, 3.0, 4.0) * v4(5.0, 6.0, 7.0, 8.0)).0, 70.0);
    assert_eq!(v2(1.0, 2.0).dot(&v2(3.0, 4.0)).0, 11.0);
    assert_eq!(v3(1.0, 2.0, 3.0).dot(&v3(4.0, 5.0, 6.0)).0, 32.0);
    assert_eq!(v4(1.0, 2.0, 3.0, 4.0).dot(&v4(5.0, 6.0, 7.0, 8.0)).0, 70.0);
    assert_eq!(parts3(v3(1.0, 2.0, 3.0).divided_by(F64(2.0))), [0.5, 1.0, 1.5]);
}

#[test]
fn cross_product_formula() {
    assert_eq!(parts3(v3(1.0, 2.0, 3.0) % v3(4.0, 5.0, 6.0)), [-3.0, 6.0, -3.0]);
    assert_eq!(parts3(V3::unit_x() % V3::unit_y()), [0.0, 0.0, 1.0]);
    assert_eq!(parts3(V3::unit_y() % V3::unit_z()), [1.0, 0.0, 0.0]);
    assert_eq!(parts3(V3::unit_z() % V3::unit_x()), [0.0, 1.0, 0.0]);
    assert_eq!(parts3(V3::unit_y() % V3::unit_x()), [0.0, 0.0, -1.0]);
}

#[test]
fn cross_product_examples() {
    assert_all_close(
        &parts3(v3(32.0, 1.4, 30.0) % v3(10.0, 10.1, 22.0)),
        &[-272.2, -404.0, 309.2],
    );
    assert_eq!(parts3(v3(10.0, 0.0, 0.0) % v3(1.0, 1.0, 0.0)), [0.0, 0.0, 10.0]);
    assert_eq!(parts3(V3::zero() % V3::zero()), [0.0, 0.0, 0.0]);
    assert_eq!(parts3(v3(3.0, -4.0, 5.0) % V3::zero()), [0.0, 0.0, 0.0]);
}

#[test]
fn lengths() {
    assert_eq!(v2(3.0, 4.0).length_sq().0, 25.0);
    assert_eq!(v2(3.0, 4.0).length().0, 5.0);
    assert_eq!(v3(1.0, 2.0, 2.0).length_sq().0, 9.0);
    assert_eq!(v3(1.0, 2.0, 2.0).length().0, 3.0);
    assert_eq!(v4(1.0, 1.0, 1.0, 1.0).length_sq().0, 4.0);
    assert_eq!(v4(1.0, 1.0, 1.0, 1.0).length().0, 2.0);
    assert_eq!(V3::zero().length().0, 0.0);
}

#[test]
fn normalized_vectors_have_unit_length() {
    for v in [v2(3.0, 4.0), v2(-0.001, 7.5), v2(1e100, 1e100), v2(0.0, -2.0)] {
        assert_close(v.get_normalized().length().0, 1.0);
    }
    for v in [v3(1.0, 2.0, 2.0), v3(-7.0, 0.25, 100.0), v3(0.0, 0.0, 1e-100)] {
        assert_close(v.get_normalized().length().0, 1.0);
    }
    for v in [v4(1.0, 1.0, 1.0, 1.0), v4(-3.0, 4.0, -12.0, 84.0), v4(0.0, 0.0, 0.0, 5.0)] {
        assert_close(v.get_normalized().length().0, 1.0);
    }
}

#[test]
fn normalization_divides_by_the_length() {
    assert_eq!(parts2(v2(3.0, 4.0).get_normalized()), [3.0 / 5.0, 4.0 / 5.0]);
    assert_eq!(parts3(v3(1.0, 2.0, 2.0).get_normalized()), [1.0 / 3.0, 2.0 / 3.0, 2.0 / 3.0]);
    assert_eq!(parts4(v4(1.0, 1.0, 1.0, 1.0).get_normalized()), [0.5, 0.5, 0.5, 0.5]);

    let mut a = v2(3.0, 4.0);
    a.normalize();
    assert_eq!(parts2(a), [3.0 / 5.0, 4.0 / 5.0]);
    let mut b = v3(1.0, 2.0, 2.0);
    b.normalize();
    assert_eq!(parts3(b), [1.0 / 3.0, 2.0 / 3.0, 2.0 / 3.0]);
    let mut c = v4(1.0, 1.0, 1.0, 1.0);
    c.normalize();
    assert_eq!(parts4(c), [0.5, 0.5, 0.5, 0.5]);
}

#[test]
fn the_zero_vector_normalizes_to_itself() {
    assert_eq!(parts2(V2::zero().get_normalized()), [0.0, 0.0]);
    assert_eq!(parts3(V3::zero().get_normalized()), [0.0, 0.0, 0.0]);
    assert_eq!(parts4(V4::zero().get_normalized()), [0.0, 0.0, 0.0, 0.0]);

    let mut a = V2::zero();
    a.normalize();
    assert_eq!(parts2(a), [0.0, 0.0]);
    let mut b = V3::zero();
    b.normalize();
    assert_eq!(parts3(b), [0.0, 0.0, 0.0]);
    let mut c = V4::zero();
    c.normalize();
    assert_eq!(parts4(c), [0.0, 0.0, 0.0, 0.0]);
}

#[test]
fn the_angle_between_two_axes_is_a_quarter_turn() {
    let quarter_turn = std::f64::consts::FRAC_PI_2;
    assert_close(V2::unit_x().angle_between(&V2::unit_y()).0, quarter_turn);
    assert_close(V3::unit_x().angle_between(&V3::unit_y()).0, quarter_turn);
    assert_close(V3::unit_y().angle_between(&V3::unit_z()).0, quarter_turn);
    assert_close(V3::unit_z().angle_between(&V3::unit_x()).0, quarter_turn);
    assert_close(V4::unit_x().angle_between(&V4::unit_y()).0, quarter_turn);
    assert_close(V4::unit_z().angle_between(&V4::unit_w()).0, quarter_turn);
    assert_close(V4::unit_w().angle_between(&V4::unit_x()).0, quarter_turn);
}

#[test]
fn angle_between_other_vectors() {
    assert_close(v2(1.0, 0.0).angle_between(&v2(1.0, 1.0)).0, std::f64::consts::FRAC_PI_4);
    assert_close(v3(2.0, 0.0, 0.0).angle_between(&v3(-3.0, 0.0, 0.0)).0, std::f64::consts::PI);
    assert_close(v3(0.0, 5.0, 0.0).angle_between(&v3(0.0, 0.5, 0.0)).0, 0.0);
}

#[test]
fn angle_to_the_zero_vector_is_not_a_number() {
    assert!(V3::unit_x().angle_between(&V3::zero()).0.is_nan());
}

#[test]
fn vectors_compare_by_length() {
    assert_eq!(v2(3.0, 4.0), v2(5.0, 0.0));
    assert_eq!(v2(3.0, 4.0), v2(0.0, -5.0));
    assert_ne!(v2(3.0, 4.0), v2(3.0, 4.5));
    assert_eq!(v3(1.0, 2.0, 2.0), v3(0.0, 3.0, 0.0));
    assert_ne!(v3(1.0, 2.0, 2.0), v3(1.0, 2.0, 3.0));
    assert_eq!(v4(1.0, 1.0, 1.0, 1.0), v4(0.0, 0.0, 2.0, 0.0));
    assert_ne!(v4(1.0, 1.0, 1.0, 1.0), v4(0.0, 0.0, 0.0, 0.0));

    assert!(v2(1.0, 0.0) < v2(3.0, 4.0));
    assert!(v2(3.0, 4.0) > v2(0.0, 4.0));
    assert!(v2(3.0, 4.0) <= v2(5.0, 0.0));
    assert!(v2(3.0, 4.0) >= v2(5.0, 0.0));
    assert!(v3(1.0, 2.0, 2.0) < v3(0.0, 0.0, 4.0));
    assert!(v4(1.0, 1.0, 1.0, 1.0) > v4(1.0, 1.0, 1.0, 0.0));

    assert_eq!(v2(3.0, 4.0).partial_cmp(&v2(5.0, 0.0)), Some(Ordering::Equal));
    assert_eq!(v3(1.0, 0.0, 0.0).partial_cmp(&v3(0.0, 0.0, 2.0)), Some(Ordering::Less));
    assert_eq!(
        v4(0.0, 9.0, 0.0, 0.0).partial_cmp(&v4(1.0, 0.0, 2.0, 0.0)),
        Some(Ordering::Greater)
    );
    assert_eq!(v2(f64::NAN, 0.0).partial_cmp(&v2(1.0, 0.0)), None);
}

#[test]
fn swizzles_of_two_and_three_components() {
    let a = v2(1.0, 2.0);
    assert_eq!((a.x().0, a.y().0), (1.0, 2.0));
    assert_eq!(parts2(a.xy()), [1.0, 2.0]);
    assert_eq!(parts2(a.yx()), [2.0, 1.0]);

    let b = v3(1.0, 2.0, 3.0);
    assert_eq!((b.x().0, b.y().0, b.z().0), (1.0, 2.0, 3.0));
    assert_eq!(parts2(b.xy()), [1.0, 2.0]);
    assert_eq!(parts2(b.yx()), [2.0, 1.0]);
    assert_eq!(parts3(b.xyz()), [1.0, 2.0, 3.0]);
    assert_eq!(parts3(b.yxz()), [2.0, 1.0, 3.0]);
    assert_eq!(parts3(b.zxy()), [3.0, 1.0, 2.0]);
    assert_eq!(parts3(b.xzy()), [1.0, 3.0, 2.0]);
    assert_eq!(parts3(b.yzx()), [2.0, 3.0, 1.0]);
    assert_eq!(parts3(b.zyx()), [3.0, 2.0, 1.0]);

    let c = v4(1.0, 2.0, 3.0, 4.0);
    assert_eq!((c.x().0, c.y().0, c.z().0, c.w().0), (1.0, 2.0, 3.0, 4.0));
    assert_eq!(parts2(c.xy()), [1.0, 2.0]);
    assert_eq!(parts2(c.yx()), [2.0, 1.0]);
    assert_eq!(parts3(c.xyz()), [1.0, 2.0, 3.0]);
    assert_eq!(parts3(c.yxz()), [2.0, 1.0, 3.0]);
    assert_eq!(parts3(c.zxy()), [3.0, 1.0, 2.0]);
    assert_eq!(parts3(c.xzy()), [1.0, 3.0, 2.0]);
    assert_eq!(parts3(c.yzx()), [2.0, 3.0, 1.0]);
    assert_eq!(parts3(c.zyx()), [3.0, 2.0, 1.0]);
}

#[test]
fn swizzles_of_four_components() {
    let c = v4(1.0, 2.0, 3.0, 4.0);
    assert_eq!(parts4(c.xyzw()), [1.0, 2.0, 3.0, 4.0]);
    assert_eq!(parts4(c.yxzw()), [2.0, 1.0, 3.0, 4.0]);
    assert_eq!(parts4(c.zxyw()), [3.0, 1.0, 2.0, 4.0]);
    assert_eq!(parts4(c.xzyw()), [1.0, 3.0, 2.0, 4.0]);
    assert_eq!(parts4(c.yzxw()), [2.0, 3.0, 1.0, 4.0]);
    assert_eq!(parts4(c.zyxw()), [3.0, 2.0, 1.0, 4.0]);
    assert_eq!(parts4(c.zywx()), [3.0, 2.0, 4.0, 1.0]);
    assert_eq!(parts4(c.yzwx()), [2.0, 3.0, 4.0, 1.0]);
    assert_eq!(parts4(c.wzyx()), [4.0, 3.0, 2.0, 1.0]);
    assert_eq!(parts4(c.zwyx()), [3.0, 4.0, 2.0, 1.0]);
    assert_eq!(parts4(c.ywzx()), [2.0, 4.0, 3.0, 1.0]);
    assert_eq!(parts4(c.wyzx()), [4.0, 2.0, 3.0, 1.0]);
    assert_eq!(parts4(c.wxzy()), [4.0, 1.0, 3.0, 2.0]);
    assert_eq!(parts4(c.xwzy()), [1.0, 4.0, 3.0, 2.0]);
    assert_eq!(parts4(c.zwxy()), [3.0, 4.0, 1.0, 2.0]);
    assert_eq!(parts4(c.wzxy()), [4.0, 3.0, 1.0, 2.0]);
    assert_eq!(parts4(c.xzwy()), [1.0, 3.0, 4.0, 2.0]);
    assert_eq!(parts4(c.zxwy()), [3.0, 1.0, 4.0, 2.0]);
    assert_eq!(parts4(c.yxwz()), [2.0, 1.0, 4.0, 3.0]);
    assert_eq!(parts4(c.xywz()), [1.0, 2.0, 4.0, 3.0]);
    assert_eq!(parts4(c.wyxz()), [4.0, 2.0, 1.0, 3.0]);
    assert_eq!(parts4(c.ywxz()), [2.0, 4.0, 1.0, 3.0]);
    assert_eq!(parts4(c.xwyz()), [1.0, 4.0, 2.0, 3.0]);
    assert_eq!(parts4(c.wxyz()), [4.0, 1.0, 2.0, 3.0]);
}

#[test]
fn swizzles_of_a_quaternion() {
    let c = quat(1.0, 2.0, 3.0, 4.0);
    assert_eq!(QuaternionSwizzle::w(&c).0, 4.0);
    assert_eq!(partsq(c.xyzw()), [1.0, 2.0, 3.0, 4.0]);
    assert_eq!(partsq(c.yxzw()), [2.0, 1.0, 3.0, 4.0]);
    assert_eq!(partsq(c.zxyw()), [3.0, 1.0, 2.0, 4.0]);
    assert_eq!(partsq(c.xzyw()), [1.0, 3.0, 2.0, 4.0]);
    assert_eq!(partsq(c.yzxw()), [2.0, 3.0, 1.0, 4.0]);
    assert_eq!(partsq(c.zyxw()), [3.0, 2.0, 1.0, 4.0]);
    assert_eq!(partsq(c.zywx()), [3.0, 2.0, 4.0, 1.0]);
    assert_eq!(partsq(c.yzwx()), [2.0, 3.0, 4.0, 1.0]);
    assert_eq!(partsq(c.wzyx()), [4.0, 3.0, 2.0, 1.0]);
    assert_eq!(partsq(c.zwyx()), [3.0, 4.0, 2.0, 1.0]);
    assert_eq!(partsq(c.ywzx()), [2.0, 4.0, 3.0, 1.0]);
    assert_eq!(partsq(c.wyzx()), [4.0, 2.0, 3.0, 1.0]);
    assert_eq!(partsq(c.wxzy()), [4.0, 1.0, 3.0, 2.0]);
    assert_eq!(partsq(c.xwzy()), [1.0, 4.0, 3.0, 2.0]);
    assert_eq!(partsq(c.zwxy()), [3.0, 4.0, 1.0, 2.0]);
    assert_eq!(partsq(c.wzxy()), [4.0, 3.0, 1.0, 2.0]);
    assert_eq!(partsq(c.xzwy()), [1.0, 3.0, 4.0, 2.0]);
    assert_eq!(partsq(c.zxwy()), [3.0, 1.0, 4.0, 2.0]);
    assert_eq!(partsq(c.yxwz()), [2.0, 1.0, 4.0, 3.0]);
    assert_eq!(partsq(c.xywz()), [1.0, 2.0, 4.0, 3.0]);
    assert_eq!(partsq(c.wyxz()), [4.0, 2.0, 1.0, 3.0]);
    assert_eq!(partsq(c.ywxz()), [2.0, 4.0, 1.0, 3.0]);
    assert_eq!(partsq(c.xwyz()), [1.0, 4.0, 2.0, 3.0]);
    assert_eq!(partsq(c.wxyz()), [4.0, 1.0, 2.0, 3.0]);
}

// Matrices.

const A2: [[f64; 2]; 2] = [[1.0, 3.0], [2.0, 4.0]];
const B2: [[f64; 2]; 2] = [[5.0, 7.0], [6.0, 8.0]];
const A3: [[f64; 3]; 3] = [[2.0, 0.0, 1.0], [1.0, 1.0, 0.0], [0.0, 3.0, 1.0]];
const B3: [[f64; 3]; 3] = [[1.0, 2.0, 3.0], [4.0, 5.0, 6.0], [7.0, 8.0, 10.0]];
const A4: [[f64; 4]; 4] =
    [[1.0, 0.0, 2.0, 0.0], [0.0, 1.0, 0.0, 3.0], [4.0, 0.0, 1.0, 0.0], [0.0, 5.0, 0.0, 1.0]];
const B4: [[f64; 4]; 4] =
    [[1.0, 2.0, 3.0, 4.0], [5.0, 6.0, 7.0, 8.0], [9.0, 10.0, 11.0, 12.0], [13.0, 14.0, 15.0, 17.0]];

fn product<const N: usize>(a: [[f64; N]; N], b: [[f64; N]; N]) -> [[f64; N]; N] {
    let mut out = [[0.0; N]; N];
    for r in 0..N {
        for c in 0..N {
            for k in 0..N {
                out[r][c] += a[r][k] * b[k][c];
            }
        }
    }
    out
}

fn identity_rows<const N: usize>() -> [[f64; N]; N] {
    let mut out = [[0.0; N]; N];
    for i in 0..N {
        out[i][i] = 1.0;
    }
    out
}

#[test]
fn matrix_constants() {
    assert_eq!(rows2(&M2::new()), [[1.0, 0.0], [0.0, 1.0]]);
    assert_eq!(rows2(&M2::identity()), [[1.0, 0.0], [0.0, 1.0]]);
    assert_eq!(rows2(&M2::zero()), [[0.0; 2]; 2]);
    assert_eq!(rows2(&M2::default()), [[0.0; 2]; 2]);
    assert_eq!(rows3(&M3::new()), identity_rows::<3>());
    assert_eq!(rows3(&M3::identity()), identity_rows::<3>());
    assert_eq!(rows3(&M3::zero()), [[0.0; 3]; 3]);
    assert_eq!(rows3(&M3::default()), [[0.0; 3]; 3]);
    assert_eq!(rows4(&M4::new()), identity_rows::<4>());
    assert_eq!(rows4(&M4::identity()), identity_rows::<4>());
    assert_eq!(rows4(&M4::zero()), [[0.0; 4]; 4]);
    assert_eq!(rows4(&M4::default()), [[0.0; 4]; 4]);
}

#[test]
fn from_axes_takes_columns() {
    let m = M2::from_axes(v2(1.0, 2.0), v2(3.0, 4.0));
    assert_eq!(m.entry(0, 0).0, 1.0);
    assert_eq!(m.entry(0, 1).0, 2.0);
    assert_eq!(m.entry(1, 0).0, 3.0);
    assert_eq!(m.entry(1, 1).0, 4.0);

    let m = M3::from_axes(v3(1.0, 2.0, 3.0), v3(4.0, 5.0, 6.0), v3(7.0, 8.0, 9.0));
    for c in 0..3 {
        for r in 0..3 {
            assert_eq!(m.entry(c, r).0, (3 * c + r + 1) as f64);
        }
    }

    let m = M4::from_axes(
        v4(1.0, 2.0, 3.0, 4.0),
        v4(5.0, 6.0, 7.0, 8.0),
        v4(9.0, 10.0, 11.0, 12.0),
        v4(13.0, 14.0, 15.0, 16.0),
    );
    for c in 0..4 {
        for r in 0..4 {
            assert_eq!(m.entry(c, r).0, (4 * c + r + 1) as f64);
            assert_eq!(m.data[c][r].0, (4 * c + r + 1) as f64);
        }
    }
}

#[test]
fn matrix_sum_difference_and_negation_are_entrywise() {
    let sum = |a: f64, b: f64| a + b;
    let difference = |a: f64, b: f64| a - b;

    let (a, b) = (m2(A2), m2(B2));
    let (s, d, n) = (rows2(&(a + b)), rows2(&(a - b)), rows2(&(-a)));
    for r in 0..2 {
        for c in 0..2 {
            assert_eq!(s[r][c], sum(A2[r][c], B2[r][c]));
            assert_eq!(d[r][c], difference(A2[r][c], B2[r][c]));
            assert_eq!(n[r][c], -A2[r][c]);
        }
    }

    let (a, b) = (m3(A3), m3(B3));
    let (s, d, n) = (rows3(&(a + b)), rows3(&(a - b)), rows3(&(-a)));
    for r in 0..3 {
        for c in 0..3 {
            assert_eq!(s[r][c], sum(A3[r][c], B3[r][c]));
            assert_eq!(d[r][c], difference(A3[r][c], B3[r][c]));
            assert_eq!(n[r][c], -A3[r][c]);
        }
    }

    let (a, b) = (m4(A4), m4(B4));
    let (s, d, n) = (rows4(&(a + b)), rows4(&(a - b)), rows4(&(-a)));
    for r in 0..4 {
        for c in 0..4 {
            assert_eq!(s[r][c], sum(A4[r][c], B4[r][c]));
            assert_eq!(d[r][c], difference(A4[r][c], B4[r][c]));
            assert_eq!(n[r][c], -A4[r][c]);
        }
    }
}

#[test]
fn matrix_assigning_operators_match_the_plain_ones() {
    let mut a = m2(A2);
    a += m2(B2);
    assert_eq!(rows2(&a), rows2(&(m2(A2) + m2(B2))));
    a -= m2(B2);
    assert_eq!(rows2(&a), A2);
    a *= m2(B2);
    assert_eq!(rows2(&a), rows2(&(m2(A2) * m2(B2))));

    let mut a = m3(A3);
    a += m3(B3);
    assert_eq!(rows3(&a), rows3(&(m3(A3) + m3(B3))));
    a -= m3(B3);
    assert_eq!(rows3(&a), A3);
    a *= m3(B3);
    assert_eq!(rows3(&a), rows3(&(m3(A3) * m3(B3))));

    let mut a = m4(A4);
    a += m4(B4);
    assert_eq!(rows4(&a), rows4(&(m4(A4) + m4(B4))));
    a -= m4(B4);
    assert_eq!(rows4(&a), A4);
    a *= m4(B4);
    assert_eq!(rows4(&a), rows4(&(m4(A4) * m4(B4))));
}

#[test]
fn matrix_product_is_rows_times_columns() {
    assert_eq!(rows2(&(m2(A2) * m2(B2))), [[23.0, 31.0], [34.0, 46.0]]);
    assert_eq!(rows2(&(m2(B2) * m2(A2))), [[19.0, 43.0], [22.0, 50.0]]);
    assert_eq!(rows2(&(m2(A2) * m2(B2))), product(A2, B2));
    assert_eq!(rows3(&(m3(A3) * m3(B3))), product(A3, B3));
    assert_eq!(rows3(&(m3(B3) * m3(A3))), product(B3, A3));
    assert_eq!(rows4(&(m4(A4) * m4(B4))), product(A4, B4));
    assert_eq!(rows4(&(m4(B4) * m4(A4))), product(B4, A4));
}

#[test]
fn matrix_times_vector() {
    assert_eq!(parts2(m2(A2) * v2(1.0, 1.0)), [4.0, 6.0]);
    assert_eq!(parts2(m2(A2) * v2(1.0, 0.0)), [1.0, 2.0]);
    assert_eq!(parts2(m2(A2) * v2(0.0, 1.0)), [3.0, 4.0]);
    assert_eq!(parts3(m3(B3) * v3(1.0, 0.0, -1.0)), [-2.0, -2.0, -3.0]);
    assert_eq!(parts3(m3(B3) * v3(1.0, 1.0, 1.0)), [6.0, 15.0, 25.0]);
    assert_eq!(parts4(m4(B4) * v4(1.0, 1.0, 1.0, 1.0)), [10.0, 26.0, 42.0, 59.0]);
    assert_eq!(parts4(m4(B4) * v4(0.0, 0.0, 0.0, 1.0)), [4.0, 8.0, 12.0, 17.0]);
}

#[test]
fn the_identity_is_neutral() {
    assert_eq!(rows2(&(M2::identity() * m2(A2))), A2);
    assert_eq!(rows2(&(m2(A2) * M2::identity())), A2);
    assert_eq!(rows3(&(M3::identity() * m3(B3))), B3);
    assert_eq!(rows3(&(m3(B3) * M3::identity())), B3);
    assert_eq!(rows4(&(M4::identity() * m4(B4))), B4);
    assert_eq!(rows4(&(m4(B4) * M4::identity())), B4);
    assert!(M2::identity() * m2(A2) == m2(A2));
    assert!(m3(B3) * M3::identity() == m3(B3));
    assert!(M4::identity() * m4(B4) == m4(B4));
    assert_eq!(parts4(M4::identity() * v4(1.0, -2.0, 3.0, -4.0)), [1.0, -2.0, 3.0, -4.0]);
}

#[test]
fn the_identity_is_not_neutral_for_an_infinite_entry() {
    let m = m2([[f64::INFINITY, 0.0], [0.0, 1.0]]);
    assert!((M2::identity() * m).entry(0, 1).0.is_nan());
}

#[test]
fn matrices_compare_entry_by_entry() {
    assert!(m2(A2) == m2(A2));
    assert!(m2(A2) != m2(B2));
    assert!(m2(A2) != m2([[1.0, 3.0], [2.0, 4.5]]));
    assert!(m3(A3) == m3(A3));
    assert!(m3(A3) != m3(B3));
    let mut rows = B4;
    assert!(m4(B4) == m4(rows));
    rows[3][0] = -13.0;
    assert!(m4(B4) != m4(rows));
}

#[test]
fn transpose_mirrors_at_the_diagonal() {
    assert_eq!(rows2(&m2(A2).get_transposed()), [[1.0, 2.0], [3.0, 4.0]]);
    let t = rows3(&m3(B3).get_transposed());
    for r in 0..3 {
        for c in 0..3 {
            assert_eq!(t[r][c], B3[c][r]);
        }
    }
    let t = rows4(&m4(B4).get_transposed());
    for r in 0..4 {
        for c in 0..4 {
            assert_eq!(t[r][c], B4[c][r]);
        }
    }

    let mut m = m2(A2);
    m.transpose();
    assert_eq!(rows2(&m), [[1.0, 2.0], [3.0, 4.0]]);
    let mut m = m3(B3);
    m.transpose();
    assert_eq!(rows3(&m), rows3(&m3(B3).get_transposed()));
    let mut m = m4(B4);
    m.transpose();
    assert_eq!(rows4(&m), rows4(&m4(B4).get_transposed()));
    m.transpose();
    assert_eq!(rows4(&m), B4);
}

#[test]
fn determinants() {
    assert_eq!(m2(A2).det().0, -2.0);
    assert_eq!(m2(B2).det().0, -2.0);
    assert_eq!(M2::identity().det().0, 1.0);
    assert_eq!(m3(A3).det().0, 5.0);
    assert_eq!(m3(B3).det().0, -3.0);
    assert_eq!(M3::identity().det().0, 1.0);
    assert_eq!(m4(A4).det().0, 98.0);
    assert_eq!(m4(B4).det().0, 0.0);
    assert_eq!(M4::identity().det().0, 1.0);
    let diagonal = m4([
        [2.0, 0.0, 0.0, 0.0],
        [0.0, 3.0, 0.0, 0.0],
        [0.0, 0.0, 4.0, 0.0],
        [0.0, 0.0, 0.0, 5.0],
    ]);
    assert_eq!(diagonal.det().0, 120.0);
    let upper = m4([
        [1.0, 2.0, 3.0, 4.0],
        [0.0, 2.0, 5.0, 6.0],
        [0.0, 0.0, 3.0, 7.0],
        [0.0, 0.0, 0.0, 4.0],
    ]);
    assert_eq!(upper.det().0, 24.0);
    assert_eq!(upper.get_transposed().det().0, 24.0);
    assert_eq!(
        det33(
            F64(1.0),
            F64(2.0),
            F64(3.0),
            F64(4.0),
            F64(5.0),
            F64(6.0),
            F64(7.0),
            F64(8.0),
            F64(10.0)
        )
        .0,
        -3.0
    );
}

#[test]
fn inverse_of_two_by_two() {
    let inverse = m2(A2).get_inverted();
    assert_eq!(rows2(&inverse), [[-2.0, 1.5], [1.0, -0.5]]);
    assert_eq!(rows2(&(m2(A2) * inverse)), identity_rows::<2>());
    assert_eq!(rows2(&(inverse * m2(A2))), identity_rows::<2>());

    let mut m = m2(A2);
    m.invert();
    assert_eq!(rows2(&m), [[-2.0, 1.5], [1.0, -0.5]]);
}

#[test]
fn inverse_of_three_by_three() {
    let m = m3([[2.0, 0.0, 0.0], [0.0, 4.0, 0.0], [1.0, 0.0, 1.0]]);
    let inverse = m.get_inverted();
    assert_eq!(rows3(&inverse), [[0.5, 0.0, 0.0], [0.0, 0.25, 0.0], [-0.5, 0.0, 1.0]]);
    assert_eq!(rows3(&(m * inverse)), identity_rows::<3>());

    let inverse = m3(A3).get_inverted();
    let back = rows3(&(m3(A3) * inverse));
    for r in 0..3 {
        assert_all_close(&back[r], &identity_rows::<3>()[r]);
    }

    let mut n = m;
    n.invert();
    assert_eq!(rows3(&n), [[0.5, 0.0, 0.0], [0.0, 0.25, 0.0], [-0.5, 0.0, 1.0]]);
}

#[test]
fn inverse_of_four_by_four() {
    let m = m4([
        [2.0, 0.0, 0.0, 1.0],
        [0.0, 4.0, 0.0, 2.0],
        [0.0, 0.0, 8.0, 3.0],
        [0.0, 0.0, 0.0, 1.0],
    ]);
    let inverse = m.get_inverted();
    assert_eq!(
        rows4(&inverse),
        [
            [0.5, 0.0, 0.0, -0.5],
            [0.0, 0.25, 0.0, -0.5],
            [0.0, 0.0, 0.125, -0.375],
            [0.0, 0.0, 0.0, 1.0]
        ]
    );
    assert_eq!(rows4(&(m * inverse)), identity_rows::<4>());

    let inverse = m4(A4).get_inverted();
    let back = rows4(&(m4(A4) * inverse));
    for r in 0..4 {
        assert_all_close(&back[r], &identity_rows::<4>()[r]);
    }

    let mut n = m;
    n.invert();
    assert_eq!(rows4(&n), rows4(&m.get_inverted()));
}

#[test]
fn a_singular_matrix_is_left_as_it_is() {
    let mut m = M2::zero();
    m.invert();
    assert_eq!(rows2(&m), [[0.0; 2]; 2]);
    let mut m = M3::zero();
    m.invert();
    assert_eq!(rows3(&m), [[0.0; 3]; 3]);
    let mut m = M4::zero();
    m.invert();
    assert_eq!(rows4(&m), [[0.0; 4]; 4]);
    assert_eq!(rows2(&M2::zero().get_inverted()), [[0.0; 2]; 2]);
    assert_eq!(rows3(&M3::zero().get_inverted()), [[0.0; 3]; 3]);
    assert_eq!(rows4(&M4::zero().get_inverted()), [[0.0; 4]; 4]);

    let singular = [[1.0, 2.0], [2.0, 4.0]];
    assert_eq!(rows2(&m2(singular).get_inverted()), singular);
    let singular = [[1.0, 2.0, 3.0], [4.0, 5.0, 6.0], [7.0, 8.0, 9.0]];
    assert_eq!(rows3(&m3(singular).get_inverted()), singular);
    assert_eq!(rows4(&m4(B4).get_inverted()), B4);
}

#[test]
fn scaling_multiplies_the_first_three_columns() {
    let scaled = m4(B4).get_scaled(v3(2.0, 0.5, -1.0));
    assert_eq!(
        rows4(&scaled),
        [
            [2.0, 1.0, -3.0, 4.0],
            [10.0, 3.0, -7.0, 8.0],
            [18.0, 5.0, -11.0, 12.0],
            [26.0, 7.0, -15.0, 17.0]
        ]
    );
    let mut m = m4(B4);
    m.scale(v3(2.0, 0.5, -1.0));
    assert_eq!(rows4(&m), rows4(&scaled));

    let scale_mat = M4::identity().get_scaled(v3(2.0, 0.5, 1.0));
    assert_eq!(parts4(scale_mat * v4(1.0, 1.0, 1.0, 1.0)), [2.0, 0.5, 1.0, 1.0]);
    let scale_mat = m3([[2.0, 0.0, 0.0], [0.0, 0.5, 0.0], [0.0, 0.0, 1.0]]);
    assert_eq!(parts3(scale_mat * v3(1.0, 1.0, 1.0)), [2.0, 0.5, 1.0]);
}

#[test]
fn translation_is_taken_in_the_basis_of_the_matrix() {
    let moved = M4::identity().get_translated(v3(1.0, 2.0, 3.0));
    assert_eq!(
        rows4(&moved),
        [[1.0, 0.0, 0.0, 1.0], [0.0, 1.0, 0.0, 2.0], [0.0, 0.0, 1.0, 3.0], [0.0, 0.0, 0.0, 1.0]]
    );
    assert_eq!(parts4(moved * v4(10.0, 20.0, 30.0, 1.0)), [11.0, 22.0, 33.0, 1.0]);

    let mut m = M4::identity();
    m.scale(v3(2.0, 3.0, 4.0));
    m.translate(v3(1.0, 1.0, 1.0));
    assert_eq!(
        rows4(&m),
        [[2.0, 0.0, 0.0, 2.0], [0.0, 3.0, 0.0, 3.0], [0.0, 0.0, 4.0, 4.0], [0.0, 0.0, 0.0, 1.0]]
    );
    m.translate(v3(1.0, 0.0, -1.0));
    assert_eq!(
        rows4(&m),
        [[2.0, 0.0, 0.0, 4.0], [0.0, 3.0, 0.0, 3.0], [0.0, 0.0, 4.0, 0.0], [0.0, 0.0, 0.0, 1.0]]
    );

    let moved = m4(B4).get_translated(v3(1.0, 0.0, 2.0));
    assert_eq!(parts4(moved * v4(0.0, 0.0, 0.0, 1.0)), [11.0, 27.0, 43.0, 60.0]);
}

#[test]
fn rotation_about_each_axis() {
    let angle = F64(0.5);
    let (s, c) = 0.5f64.sin_cos();

    let about_z = M4::identity().get_rotated(V3::unit_z(), angle);
    let want = [[c, -s, 0.0, 0.0], [s, c, 0.0, 0.0], [0.0, 0.0, 1.0, 0.0], [0.0, 0.0, 0.0, 1.0]];
    let got = rows4(&about_z);
    for r in 0..4 {
        assert_all_close(&got[r], &want[r]);
    }

    let about_x = M4::identity().get_rotated(V3::unit_x(), angle);
    let want = [[1.0, 0.0, 0.0, 0.0], [0.0, c, -s, 0.0], [0.0, s, c, 0.0], [0.0, 0.0, 0.0, 1.0]];
    let got = rows4(&about_x);
    for r in 0..4 {
        assert_all_close(&got[r], &want[r]);
    }

    let about_y = M4::identity().get_rotated(V3::unit_y(), angle);
    let want = [[c, 0.0, s, 0.0], [0.0, 1.0, 0.0, 0.0], [-s, 0.0, c, 0.0], [0.0, 0.0, 0.0, 1.0]];
    let got = rows4(&about_y);
    for r in 0..4 {
        assert_all_close(&got[r], &want[r]);
    }
}

#[test]
fn rotation_composes_from_the_right_and_keeps_the_fourth_column() {
    let quarter_turn = F64(std::f64::consts::FRAC_PI_2);
    let turned = M4::identity().get_rotated(V3::unit_z(), quarter_turn);
    assert_all_close(&parts4(turned * v4(1.0, 0.0, 0.0, 0.0)), &[0.0, 1.0, 0.0, 0.0]);
    assert_all_close(&parts4(turned * v4(0.0, 1.0, 0.0, 0.0)), &[-1.0, 0.0, 0.0, 0.0]);

    let mut m = M4::identity();
    m.translate(v3(5.0, 6.0, 7.0));
    m.scale(v3(2.0, 2.0, 2.0));
    m.rotate(V3::unit_z(), quarter_turn);
    assert_all_close(&parts4(m * v4(1.0, 0.0, 0.0, 1.0)), &[5.0, 8.0, 7.0, 1.0]);
    assert_eq!(parts4(m * v4(0.0, 0.0, 0.0, 1.0)), [5.0, 6.0, 7.0, 1.0]);

    let rotated = m4(B4).get_rotated(V3::unit_x(), F64(0.25));
    let got = rows4(&rotated);
    for r in 0..4 {
        assert_eq!(got[r][3], B4[r][3]);
    }
    let (s, c) = 0.25f64.sin_cos();
    for r in 0..4 {
        assert_close(got[r][0], B4[r][0]);
        assert_close(got[r][1], B4[r][1] * c + B4[r][2] * s);
        assert_close(got[r][2], B4[r][2] * c - B4[r][1] * s);
    }
}

// Quaternions.

#[test]
fn quaternion_constants() {
    assert_eq!(partsq(Q::zero()), [0.0, 0.0, 0.0, 0.0]);
    assert_eq!(partsq(Q::identity()), [0.0, 0.0, 0.0, 1.0]);
    assert_eq!(partsq(Q::default()), [0.0, 0.0, 0.0, 0.0]);
    let mut q = quat(1.0, 2.0, 3.0, 4.0);
    q.set_identity();
    assert_eq!(partsq(q), [0.0, 0.0, 0.0, 1.0]);
}

#[test]
fn quaternion_arithmetic_is_componentwise() {
    let (a, b) = (quat(1.0, 2.0, 3.0, 4.0), quat(10.0, 20.0, 30.0, 40.0));
    assert_eq!(partsq(a + b), [11.0, 22.0, 33.0, 44.0]);
    assert_eq!(partsq(a - b), [-9.0, -18.0, -27.0, -36.0]);
    assert_eq!(partsq(-a), [-1.0, -2.0, -3.0, -4.0]);
    assert_eq!(partsq(a * F64(3.0)), [3.0, 6.0, 9.0, 12.0]);
    assert_eq!(partsq(a / F64(4.0)), [0.25, 0.5, 0.75, 1.0]);

    let mut c = a;
    c += b;
    assert_eq!(partsq(c), [11.0, 22.0, 33.0, 44.0]);
    c -= a;
    assert_eq!(partsq(c), [10.0, 20.0, 30.0, 40.0]);
    c *= F64(2.0);
    assert_eq!(partsq(c), [20.0, 40.0, 60.0, 80.0]);
    c /= F64(8.0);
    assert_eq!(partsq(c), [2.5, 5.0, 7.5, 10.0]);
}

#[test]
fn quaternions_compare_component_by_component() {
    assert!(quat(1.0, 2.0, 3.0, 4.0) == quat(1.0, 2.0, 3.0, 4.0));
    assert!(quat(1.0, 2.0, 3.0, 4.0) != quat(4.0, 3.0, 2.0, 1.0));
    assert!(quat(1.0, 2.0, 3.0, 4.0) != quat(1.0, 2.0, 3.0, -4.0));
}

#[test]
fn hamilton_product() {
    let i = quat(1.0, 0.0, 0.0, 0.0);
    let j = quat(0.0, 1.0, 0.0, 0.0);
    let k = quat(0.0, 0.0, 1.0, 0.0);
    assert_eq!(partsq(i * j), [0.0, 0.0, 1.0, 0.0]);
    assert_eq!(partsq(j * i), [0.0, 0.0, -1.0, 0.0]);
    assert_eq!(partsq(j * k), [1.0, 0.0, 0.0, 0.0]);
    assert_eq!(partsq(k * i), [0.0, 1.0, 0.0, 0.0]);
    assert_eq!(partsq(i * i), [0.0, 0.0, 0.0, -1.0]);
    assert_eq!(partsq(Q::identity() * quat(1.0, 2.0, 3.0, 4.0)), [1.0, 2.0, 3.0, 4.0]);
    assert_eq!(
        partsq(quat(1.0, 2.0, 3.0, 4.0) * quat(5.0, 6.0, 7.0, 8.0)),
        [24.0, 48.0, 48.0, -6.0]
    );

    let mut a = quat(1.0, 2.0, 3.0, 4.0);
    a *= quat(5.0, 6.0, 7.0, 8.0);
    assert_eq!(partsq(a), [24.0, 48.0, 48.0, -6.0]);
}

#[test]
fn quaternion_length_and_normalization() {
    let q = quat(1.0, 2.0, 2.0, 4.0);
    assert_eq!(q.length_sq().0, 25.0);
    assert_eq!(q.length().0, 5.0);
    assert_eq!(partsq(q.get_normalized()), [0.2, 0.4, 0.4, 0.8]);
    assert_eq!(partsq(q.divided_by(F64(2.0))), [0.5, 1.0, 1.0, 2.0]);
    let mut n = q;
    n.normalize();
    assert_eq!(partsq(n), [0.2, 0.4, 0.4, 0.8]);
    assert_close(n.length().0, 1.0);
}

#[test]
fn the_zero_quaternion_has_no_normalization() {
    let n = Q::zero().get_normalized();
    assert!(n.x.0.is_nan() && n.y.0.is_nan() && n.z.0.is_nan() && n.w.0.is_nan());
    let mut m = Q::zero();
    m.normalize();
    assert!(m.w.0.is_nan());
}

#[test]
fn quaternion_inversion() {
    assert_eq!(partsq(quat(1.0, 0.0, 0.0, 0.0).get_inverted()), [1.0, 0.0, 0.0, 0.0]);
    let inverted = quat(10.0, 13.0, 2.0, 1.0).get_inverted();
    let length = 274.0f64.sqrt();
    assert_all_close(
        &partsq(inverted),
        &[10.0 / length, -13.0 / length, -2.0 / length, -1.0 / length],
    );
    let want = [0.60412204, -0.7853587, -0.12082442, -0.06041221];
    for (got, want) in partsq(inverted).iter().zip(want) {
        assert!((got - want).abs() < 1e-5);
    }
    let mut q = quat(10.0, 13.0, 2.0, 1.0);
    q.invert();
    assert_eq!(partsq(q), partsq(inverted));
}

#[test]
fn quaternion_from_axis_and_angle() {
    let q = Q::from_axis_angle(V3::unit_z(), F64(std::f64::consts::FRAC_PI_2));
    let h = std::f64::consts::FRAC_PI_4;
    assert_eq!(partsq(q), [0.0, 0.0, h.sin(), h.cos()]);
    let q = Q::from_axis_angle(v3(0.6, 0.0, 0.8), F64(1.0));
    assert_eq!(partsq(q), [0.6 * 0.5f64.sin(), 0.0, 0.8 * 0.5f64.sin(), 0.5f64.cos()]);
    let q = Q::from_axis_angle(V3::unit_x(), F64(0.1));
    assert_all_close(&partsq(q), &[0.04997916927067833, 0.0, 0.0, 0.9987502603949663]);
}

#[test]
fn quaternion_to_matrix() {
    assert_eq!(rows4(&Q::identity().to_matrix()), identity_rows::<4>());
    let m = quat(1.0, 2.0, 3.0, 4.0).to_matrix();
    assert_eq!(
        rows4(&m),
        [
            [-25.0, 28.0, -10.0, 0.0],
            [-20.0, -19.0, 20.0, 0.0],
            [22.0, 4.0, -9.0, 0.0],
            [0.0, 0.0, 0.0, 1.0]
        ]
    );
}

#[test]
fn quaternion_turns_vectors_through_its_matrix() {
    let q = Q::from_axis_angle(V3::unit_z(), F64(std::f64::consts::FRAC_PI_2));
    assert_all_close(&parts3(q * v3(1.0, 0.0, 0.0)), &[0.0, -1.0, 0.0]);
    assert_all_close(&parts3(q * v3(0.0, 1.0, 0.0)), &[1.0, 0.0, 0.0]);
    assert_all_close(&parts3(q * v3(0.0, 0.0, 1.0)), &[0.0, 0.0, 1.0]);
    assert_all_close(&parts4(q * v4(1.0, 0.0, 0.0, 5.0)), &[0.0, -1.0, 0.0, 5.0]);
    assert_all_close(&parts3(q.right()), &[0.0, -1.0, 0.0]);
    assert_all_close(&parts3(q.up()), &[1.0, 0.0, 0.0]);
    assert_all_close(&parts3(q.forward()), &[0.0, 0.0, -1.0]);

    assert_eq!(parts3(Q::identity().forward()), [0.0, 0.0, -1.0]);
    assert_eq!(parts3(Q::identity().up()), [0.0, 1.0, 0.0]);
    assert_eq!(parts3(Q::identity().right()), [1.0, 0.0, 0.0]);
    assert_eq!(parts3(quat(1.0, 2.0, 3.0, 4.0) * v3(1.0, 1.0, 1.0)), [-7.0, -19.0, 17.0]);
}

#[test]
fn matrix_and_quaternion_round_trip() {
    for (axis, angle) in [
        (v3(1.0, 0.0, 0.0), 0.1),
        (v3(0.0, 1.0, 0.0), 1.3),
        (v3(0.0, 0.0, 1.0), -0.7),
        (v3(0.6, 0.0, 0.8), 2.0),
        (v3(1.0, 0.0, 0.0), 3.0),
        (v3(0.0, 1.0, 0.0), 3.0),
        (v3(0.0, 0.0, 1.0), 3.0),
        (v3(0.0, 0.6, 0.8), 3.1),
    ] {
        let q = Q::from_axis_angle(axis, F64(angle));
        let back = Q::from_matrix(&q.to_matrix());
        assert_all_close(&partsq(back), &partsq(q));
    }
}

#[test]
fn euler_angles_and_quaternion_round_trip() {
    for (axis, angle) in [
        (v3(1.0, 0.0, 0.0), 0.1),
        (v3(0.0, 1.0, 0.0), 1.3),
        (v3(0.0, 0.0, 1.0), -0.7),
        (v3(0.6, 0.0, 0.8), 1.0),
        (v3(0.0, 0.6, 0.8), -1.2),
    ] {
        let q = Q::from_axis_angle(axis, F64(angle));
        let back = Q::from_euler_angles(q.to_euler());
        assert_all_close(&partsq(back), &partsq(q));
    }
}

#[test]
fn from_matrix_takes_each_branch() {
    // The trace is not below zero.
    assert_eq!(partsq(Q::from_matrix(&M4::identity())), [0.0, 0.0, 0.0, 1.0]);
    // The trace is below zero, and each entry of the diagonal in turn is the
    // largest.
    assert_eq!(
        partsq(Q::from_matrix(&quat(1.0, 0.0, 0.0, 0.0).to_matrix())),
        [1.0, 0.0, 0.0, 0.0]
    );
    assert_eq!(
        partsq(Q::from_matrix(&quat(0.0, 1.0, 0.0, 0.0).to_matrix())),
        [0.0, 1.0, 0.0, 0.0]
    );
    assert_eq!(
        partsq(Q::from_matrix(&quat(0.0, 0.0, 1.0, 0.0).to_matrix())),
        [0.0, 0.0, 1.0, 0.0]
    );
    // Off the axes: the largest entry decides which component is a root.
    let m = m4([
        [0.5, 0.25, 0.125, 9.0],
        [-0.25, -1.0, 0.5, 9.0],
        [0.375, -0.5, -1.5, 9.0],
        [9.0, 9.0, 9.0, 9.0],
    ]);
    let s = 4.0f64.sqrt();
    let k = 0.5 / s;
    assert_eq!(
        partsq(Q::from_matrix(&m)),
        [s * 0.5, (-0.25 + 0.25) * k, (0.125 + 0.375) * k, (0.5 - -0.5) * k]
    );
    let m = m4([
        [-1.0, 0.25, 0.125, 0.0],
        [-0.25, 0.5, 0.5, 0.0],
        [0.375, -0.5, -1.5, 0.0],
        [0.0, 0.0, 0.0, 1.0],
    ]);
    assert_eq!(
        partsq(Q::from_matrix(&m)),
        [(-0.25 + 0.25) * k, s * 0.5, (-0.5 + 0.5) * k, (0.375 - 0.125) * k]
    );
    let m = m4([
        [-1.0, 0.25, 0.125, 0.0],
        [-0.25, -1.5, 0.5, 0.0],
        [0.375, -0.5, 0.5, 0.0],
        [0.0, 0.0, 0.0, 1.0],
    ]);
    assert_eq!(
        partsq(Q::from_matrix(&m)),
        [(0.125 + 0.375) * k, (-0.5 + 0.5) * k, s * 0.5, (0.25 - -0.25) * k]
    );
    // A trace above zero.
    let m = m4([
        [1.0, 0.25, 0.125, 0.0],
        [-0.25, 1.0, 0.5, 0.0],
        [0.375, -0.5, 1.0, 0.0],
        [0.0, 0.0, 0.0, 1.0],
    ]);
    assert_eq!(
        partsq(Q::from_matrix(&m)),
        [(0.5 - -0.5) * 0.25, (0.375 - 0.125) * 0.25, (0.25 - -0.25) * 0.25, 1.0]
    );
}

#[test]
fn euler_angles_of_single_rotations() {
    let roll = Q::from_axis_angle(V3::unit_x(), F64(0.3)).to_euler();
    assert_all_close(&parts3(roll), &[0.3, 0.0, 0.0]);
    let pitch = Q::from_axis_angle(V3::unit_y(), F64(0.4)).to_euler();
    assert_all_close(&parts3(pitch), &[0.0, 0.4, 0.0]);
    let yaw = Q::from_axis_angle(V3::unit_z(), F64(0.5)).to_euler();
    assert_all_close(&parts3(yaw), &[0.0, 0.0, 0.5]);
    assert_eq!(parts3(Q::identity().to_euler()), [0.0, 0.0, 0.0]);
}

#[test]
fn pitch_is_clamped_at_gimbal_lock() {
    let quarter_turn = 3.1415926 / 2.0;
    assert_eq!(quat(0.0, 1.0, 0.0, 1.0).to_euler().y.0, quarter_turn);
    assert_eq!(quat(0.0, -1.0, 0.0, 1.0).to_euler().y.0, -quarter_turn);
    assert_eq!(quat(0.0, 0.5, 0.0, 1.0).to_euler().y.0, quarter_turn);
    assert_eq!(quat(0.0, -0.5, 0.0, 1.0).to_euler().y.0, -quarter_turn);
    assert_eq!(quat(0.0, 0.25, 0.0, 1.0).to_euler().y.0, 0.5f64.asin());
    assert_eq!(quat(0.0, -0.25, 0.0, 1.0).to_euler().y.0, (-0.5f64).asin());
    assert!(!quat(0.0, 3.0, 0.0, 5.0).to_euler().y.0.is_nan());
}

#[test]
fn quaternion_from_euler_angles() {
    assert_eq!(partsq(Q::from_euler_angles(v3(0.0, 0.0, 0.0))), [0.0, 0.0, 0.0, 1.0]);
    let q = Q::from_euler_angles(v3(0.3, 0.0, 0.0));
    assert_all_close(&partsq(q), &[0.15f64.sin(), 0.0, 0.0, 0.15f64.cos()]);
    let q = Q::from_euler_angles(v3(0.0, 0.4, 0.0));
    assert_all_close(&partsq(q), &[0.0, 0.2f64.sin(), 0.0, 0.2f64.cos()]);
    let q = Q::from_euler_angles(v3(0.0, 0.0, 0.5));
    assert_all_close(&partsq(q), &[0.0, 0.0, 0.25f64.sin(), 0.25f64.cos()]);

    let (roll, pitch, yaw) = (0.3f64, -0.4f64, 1.1f64);
    let (sr, cr) = (roll / 2.0).sin_cos();
    let (sp, cp) = (pitch / 2.0).sin_cos();
    let (sy, cy) = (yaw / 2.0).sin_cos();
    let q = Q::from_euler_angles(v3(roll, pitch, yaw));
    assert_all_close(
        &partsq(q),
        &[
            sr * cp * cy - cr * sp * sy,
            cr * sp * cy + sr * cp * sy,
            cr * cp * sy - sr * sp * cy,
            cr * cp * cy + sr * sp * sy,
        ],
    );
    assert_close(q.length().0, 1.0);
}

#[test]
fn rotating_a_quaternion() {
    let mut q = Q::identity();
    q.rotate(V3::unit_z(), F64(0.5));
    assert_all_close(&partsq(q), &[0.0, 0.0, -(0.25f64.sin()), 0.25f64.cos()]);

    let mut q = Q::identity();
    q.rotate(V3::unit_x(), F64(1.0));
    assert_all_close(&partsq(q), &[-(0.5f64.sin()), 0.0, 0.0, 0.5f64.cos()]);

    // Half turns take the branches where the trace is not above zero.
    let half_turn = F64(std::f64::consts::PI);
    let mut q = Q::identity();
    q.rotate(V3::unit_x(), half_turn);
    assert_all_close(&partsq(q), &[1.0, 0.0, 0.0, 0.0]);
    let mut q = Q::identity();
    q.rotate(V3::unit_y(), half_turn);
    assert_all_close(&partsq(q), &[0.0, 1.0, 0.0, 0.0]);
    let mut q = Q::identity();
    q.rotate(V3::unit_z(), half_turn);
    assert_all_close(&partsq(q), &[0.0, 0.0, 1.0, 0.0]);

    let mut q = Q::from_axis_angle(V3::unit_y(), F64(0.4));
    q.rotate(V3::unit_y(), F64(0.0));
    assert_all_close(&partsq(q), &[0.0, 0.2f64.sin(), 0.0, 0.2f64.cos()]);
    assert_close(q.length().0, 1.0);
}

#[test]
fn slerp_blends_linearly_along_the_shorter_way() {
    let a = quat(0.0, 0.0, 0.0, 1.0);
    let b = quat(1.0, 0.0, 0.0, 0.0);
    let r = 0.5f64.sqrt();
    assert_all_close(&partsq(Q::slerp(a, b, F64(0.5))), &[r, 0.0, 0.0, r]);
    assert_eq!(partsq(Q::slerp(a, b, F64(0.0))), [0.0, 0.0, 0.0, 1.0]);
    assert_eq!(partsq(Q::slerp(a, b, F64(1.0))), [1.0, 0.0, 0.0, 0.0]);
    let quarter = Q::slerp(a, b, F64(0.25));
    let length = (0.25f64 * 0.25 + 0.75 * 0.75).sqrt();
    assert_all_close(&partsq(quarter), &[0.25 / length, 0.0, 0.0, 0.75 / length]);

    // The dot product is below zero: the second quaternion is negated.
    let b = quat(-1.0, 0.0, 0.0, -1.0);
    let length = 1.25f64.sqrt();
    assert_all_close(&partsq(Q::slerp(a, b, F64(0.5))), &[0.5 / length, 0.0, 0.0, 1.0 / length]);
}

#[test]
fn look_rotation() {
    let mut q = quat(9.0, 9.0, 9.0, 9.0);
    q.look_rotation(v3(0.0, 0.0, 2.0), v3(0.0, 3.0, 0.0));
    assert_all_close(&partsq(q), &[0.0, 0.0, 0.0, 1.0]);

    let mut q = Q::identity();
    q.look_rotation(v3(1.0, 0.0, 0.0), v3(1.0, 1.0, 0.0));
    let r = 0.5f64.sqrt();
    let s = (r + 1.0).sqrt();
    let k = 0.5 / s;
    let unnormalized = [0.0, (r - 1.0) * k, r * k, s * 0.5];
    let length = unnormalized.iter().map(|c| c * c).sum::<f64>().sqrt();
    let want: Vec<f64> = unnormalized.iter().map(|c| c / length).collect();
    assert_all_close(&partsq(q), &want);
    assert_close(q.length().0, 1.0);
}
