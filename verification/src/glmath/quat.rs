//! Quaternions: their arithmetic, and the conversions between a quaternion, a
//! rotation matrix, Euler angles, and an axis with an angle.

use crate::glmath::mat44::Mat44;
use crate::glmath::vec3::Vec3;
use crate::glmath::vec4::Vec4;
use crate::glmath::vectorable::dot4;
use crate::glmath::vectorable::max_spec;
use crate::glmath::vectorable::Vectorable;
use crate::glmath::QuaternionSwizzle;
use crate::glmath::StandardMat44;
use crate::glmath::StandardQuat;
use crate::glmath::StandardVec;
use core::ops::Neg;
use core::ops::Rem;
use vstd::prelude::*;

verus! {

/// The quaternion `w + x i + y j + z k`. Nothing keeps it at unit length: most
/// geometric uses ask for a unit quaternion, and it is for the caller to
/// normalize.
#[derive(Debug, Copy)]
pub struct Quat<T: Vectorable> {
    pub x: T,
    pub y: T,
    pub z: T,
    pub w: T,
}

impl<T: Vectorable> Clone for Quat<T> {
    fn clone(&self) -> (r: Self)
        ensures
            r == *self,
    {
        *self
    }
}

/// The zero quaternion.
impl<T: Vectorable> Default for Quat<T> {
    fn default() -> (r: Self)
        ensures
            r == Self::zero_spec(),
    {
        Self::zero()
    }
}

/// `a + b + c`, evaluated left to right.
pub open spec fn sum3<T: Vectorable>(a: T, b: T, c: T) -> T {
    a.add_spec(b).add_spec(c)
}

impl<T: Vectorable> Quat<T> {
    /// All four components zero.
    pub open spec fn zero_spec() -> Quat<T> {
        Quat { x: T::zero_spec(), y: T::zero_spec(), z: T::zero_spec(), w: T::zero_spec() }
    }

    /// The rotation that turns nothing: the real unit.
    pub open spec fn identity_spec() -> Quat<T> {
        Quat { x: T::zero_spec(), y: T::zero_spec(), z: T::zero_spec(), w: T::one_spec() }
    }

    /// Every component negated.
    pub open spec fn negated(self) -> Quat<T> {
        Quat {
            x: self.x.neg_spec(),
            y: self.y.neg_spec(),
            z: self.z.neg_spec(),
            w: self.w.neg_spec(),
        }
    }

    /// The component-wise sum.
    pub open spec fn plus(self, rhs: Quat<T>) -> Quat<T> {
        Quat {
            x: self.x.add_spec(rhs.x),
            y: self.y.add_spec(rhs.y),
            z: self.z.add_spec(rhs.z),
            w: self.w.add_spec(rhs.w),
        }
    }

    /// The component-wise difference.
    pub open spec fn minus(self, rhs: Quat<T>) -> Quat<T> {
        Quat {
            x: self.x.sub_spec(rhs.x),
            y: self.y.sub_spec(rhs.y),
            z: self.z.sub_spec(rhs.z),
            w: self.w.sub_spec(rhs.w),
        }
    }

    /// Every component multiplied by `k`.
    pub open spec fn scaled_by(self, k: T) -> Quat<T> {
        Quat {
            x: self.x.mul_spec(k),
            y: self.y.mul_spec(k),
            z: self.z.mul_spec(k),
            w: self.w.mul_spec(k),
        }
    }

    /// The Hamilton product. Its vector part is
    /// `self.xyz * rhs.w + self.w * rhs.xyz + self.xyz x rhs.xyz`, its real part
    /// `self.w * rhs.w - self.xyz . rhs.xyz`; each component is summed from
    /// left to right.
    pub open spec fn times(self, rhs: Quat<T>) -> Quat<T> {
        Quat {
            x: self.x.mul_spec(rhs.w).add_spec(self.w.mul_spec(rhs.x)).add_spec(
                self.y.mul_spec(rhs.z),
            ).sub_spec(self.z.mul_spec(rhs.y)),
            y: self.y.mul_spec(rhs.w).add_spec(self.w.mul_spec(rhs.y)).add_spec(
                self.z.mul_spec(rhs.x),
            ).sub_spec(self.x.mul_spec(rhs.z)),
            z: self.z.mul_spec(rhs.w).add_spec(self.w.mul_spec(rhs.z)).add_spec(
                self.x.mul_spec(rhs.y),
            ).sub_spec(self.y.mul_spec(rhs.x)),
            w: self.w.mul_spec(rhs.w).sub_spec(self.x.mul_spec(rhs.x)).sub_spec(
                self.y.mul_spec(rhs.y),
            ).sub_spec(self.z.mul_spec(rhs.z)),
        }
    }

    /// The length: the square root of the squared length.
    pub open spec fn length_spec(self) -> T {
        self.length_sq_spec().sqrt_spec()
    }

    /// The quaternion divided by its length. The length is not tested against
    /// zero.
    pub open spec fn normalized_spec(self) -> Quat<T> {
        self.divided_by_spec(self.length_spec())
    }

    /// Every component divided by the squared length, all but `x` negated
    /// first, and the whole normalized.
    pub open spec fn inverted_spec(self) -> Quat<T> {
        let mag = self.length_sq_spec();
        Quat {
            x: self.x.div_spec(mag),
            y: self.y.neg_spec().div_spec(mag),
            z: self.z.neg_spec().div_spec(mag),
            w: self.w.neg_spec().div_spec(mag),
        }.normalized_spec()
    }

    /// The quaternion of the rotation about the unit vector `axis` whose half
    /// angle has the sine `s` and the cosine `c`.
    pub open spec fn from_axis_half_angle(axis: Vec3<T>, s: T, c: T) -> Quat<T> {
        Quat { x: axis.x.mul_spec(s), y: axis.y.mul_spec(s), z: axis.z.mul_spec(s), w: c }
    }

    /// The quaternion of the rotation about the unit vector `axis` by `angle`,
    /// in radians.
    pub open spec fn from_axis_angle_spec(axis: Vec3<T>, angle: T) -> Quat<T> {
        let half_angle = angle.div_spec(T::two_spec());
        Self::from_axis_half_angle(axis, half_angle.sin_spec(), half_angle.cos_spec())
    }

    /// The product of the three rotations about the axes, from the cosines
    /// and sines of the three half angles: `cr`, `sr` for the roll about the
    /// first axis, `cp`, `sp` for the pitch about the second, `cy`, `sy` for
    /// the yaw about the third.
    pub open spec fn from_half_angles(cr: T, sr: T, cp: T, sp: T, cy: T, sy: T) -> Quat<T> {
        Quat {
            x: sr.mul_spec(cp).mul_spec(cy).sub_spec(cr.mul_spec(sp).mul_spec(sy)),
            y: cr.mul_spec(sp).mul_spec(cy).add_spec(sr.mul_spec(cp).mul_spec(sy)),
            z: cr.mul_spec(cp).mul_spec(sy).sub_spec(sr.mul_spec(sp).mul_spec(cy)),
            w: cr.mul_spec(cp).mul_spec(cy).add_spec(sr.mul_spec(sp).mul_spec(sy)),
        }
    }

    /// The quaternion of the Euler angles `euler`, in radians: roll in `x`,
    /// pitch in `y`, yaw in `z`. The product of the three rotations is
    /// normalized.
    pub open spec fn from_euler_angles_spec(euler: Vec3<T>) -> Quat<T> {
        let yaw = euler.z.mul_spec(T::half_spec());
        let pitch = euler.y.mul_spec(T::half_spec());
        let roll = euler.x.mul_spec(T::half_spec());
        Self::from_half_angles(
            roll.cos_spec(),
            roll.sin_spec(),
            pitch.cos_spec(),
            pitch.sin_spec(),
            yaw.cos_spec(),
            yaw.sin_spec(),
        ).normalized_spec()
    }

    /// One entry of the rotation block of `to_matrix`: `c` and `r` each name
    /// one of the three axes.
    pub open spec fn rotation_entry(self, c: int, r: int) -> T {
        let one = T::one_spec();
        let two = T::two_spec();
        let xy = self.x.mul_spec(self.y);
        let xz = self.x.mul_spec(self.z);
        let xw = self.x.mul_spec(self.w);
        let yz = self.y.mul_spec(self.z);
        let yw = self.y.mul_spec(self.w);
        let zw = self.z.mul_spec(self.w);
        let x_sq = self.x.mul_spec(self.x);
        let y_sq = self.y.mul_spec(self.y);
        let z_sq = self.z.mul_spec(self.z);
        if c == 0 {
            if r == 0 {
                one.sub_spec(two.mul_spec(y_sq.add_spec(z_sq)))
            } else if r == 1 {
                two.mul_spec(xy.sub_spec(zw))
            } else {
                two.mul_spec(xz.add_spec(yw))
            }
        } else if c == 1 {
            if r == 0 {
                two.mul_spec(xy.add_spec(zw))
            } else if r == 1 {
                one.sub_spec(two.mul_spec(x_sq.add_spec(z_sq)))
            } else {
                two.mul_spec(yz.sub_spec(xw))
            }
        } else {
            if r == 0 {
                two.mul_spec(xz.sub_spec(yw))
            } else if r == 1 {
                two.mul_spec(yz.add_spec(xw))
            } else {
                one.sub_spec(two.mul_spec(x_sq.add_spec(y_sq)))
            }
        }
    }

    /// The rotation matrix of the quaternion: the rotation block in the first
    /// three columns and rows, and the fourth column and row those of the
    /// identity.
    pub open spec fn to_matrix_spec(self) -> Mat44<T> {
        Mat44::build(
            |c: int, r: int|
                if c < 3 && r < 3 {
                    self.rotation_entry(c, r)
                } else if c == 3 && r == 3 {
                    T::one_spec()
                } else {
                    T::zero_spec()
                },
        )
    }

    /// The argument whose arc sine is the pitch: `2 (w y - z x)`.
    pub open spec fn pitch_sine(self) -> T {
        T::two_spec().mul_spec(self.w.mul_spec(self.y).sub_spec(self.z.mul_spec(self.x)))
    }

    /// Whether `pitch_sine` lies at or beyond one of the ends of the domain of
    /// the arc sine: at or above one, or at or below minus one.
    pub open spec fn gimbal_locked(self) -> bool {
        T::one_spec().le_spec(self.pitch_sine()) || self.pitch_sine().le_spec(
            T::one_spec().neg_spec(),
        )
    }

    /// The pitch: the arc sine of `pitch_sine`, or a quarter turn with the
    /// sign of `pitch_sine` where the quaternion is gimbal locked.
    pub open spec fn pitch_spec(self) -> T {
        let quarter_turn = T::pi_spec().div_spec(T::two_spec());
        if self.gimbal_locked() {
            if self.pitch_sine().lt_spec(T::zero_spec()) {
                quarter_turn.neg_spec()
            } else {
                quarter_turn
            }
        } else {
            self.pitch_sine().asin_spec()
        }
    }

    /// The roll: the angle of the point
    /// `(1 - 2 (x x + y y), 2 (w x + y z))`.
    pub open spec fn roll_spec(self) -> T {
        T::atan2_spec(
            T::two_spec().mul_spec(self.w.mul_spec(self.x).add_spec(self.y.mul_spec(self.z))),
            T::one_spec().sub_spec(
                T::two_spec().mul_spec(self.x.mul_spec(self.x).add_spec(self.y.mul_spec(self.y))),
            ),
        )
    }

    /// The yaw: the angle of the point
    /// `(1 - 2 (y y + z z), 2 (w z + x y))`.
    pub open spec fn yaw_spec(self) -> T {
        T::atan2_spec(
            T::two_spec().mul_spec(self.w.mul_spec(self.z).add_spec(self.x.mul_spec(self.y))),
            T::one_spec().sub_spec(
                T::two_spec().mul_spec(self.y.mul_spec(self.y).add_spec(self.z.mul_spec(self.z))),
            ),
        )
    }

    /// The Euler angles of the quaternion, in radians: roll in `x`, pitch in
    /// `y`, yaw in `z`.
    pub open spec fn to_euler_spec(self) -> Vec3<T> {
        Vec3 { x: self.roll_spec(), y: self.pitch_spec(), z: self.yaw_spec() }
    }

    /// The quaternion of a rotation matrix by Shepperd's method. Only the
    /// first three columns and rows are read.
    ///
    /// Where the trace is at or above zero, `w` comes first, from the root of
    /// the trace plus one. Else the largest entry of the diagonal picks the
    /// component that comes first, from the root of that entry minus the other
    /// two plus one. The other three components follow from the sums and
    /// differences of the entries off the diagonal, each times a half over
    /// that root.
    pub open spec fn from_matrix_spec(m: Mat44<T>) -> Quat<T> {
        let half = T::half_spec();
        let one = T::one_spec();
        let m00 = m.at(0, 0);
        let m01 = m.at(0, 1);
        let m02 = m.at(0, 2);
        let m10 = m.at(1, 0);
        let m11 = m.at(1, 1);
        let m12 = m.at(1, 2);
        let m20 = m.at(2, 0);
        let m21 = m.at(2, 1);
        let m22 = m.at(2, 2);
        let tr = sum3(m00, m11, m22);
        let largest = max_spec(max_spec(m00, m11), m22);
        if T::zero_spec().le_spec(tr) {
            let s = tr.add_spec(one).sqrt_spec();
            let k = half.div_spec(s);
            Quat {
                x: m21.sub_spec(m12).mul_spec(k),
                y: m02.sub_spec(m20).mul_spec(k),
                z: m10.sub_spec(m01).mul_spec(k),
                w: s.mul_spec(half),
            }
        } else if largest.eq_spec(m00) {
            let s = m00.sub_spec(m11.add_spec(m22)).add_spec(one).sqrt_spec();
            let k = half.div_spec(s);
            Quat {
                x: s.mul_spec(half),
                y: m01.add_spec(m10).mul_spec(k),
                z: m20.add_spec(m02).mul_spec(k),
                w: m21.sub_spec(m12).mul_spec(k),
            }
        } else if largest.eq_spec(m11) {
            let s = m11.sub_spec(m22.add_spec(m00)).add_spec(one).sqrt_spec();
            let k = half.div_spec(s);
            Quat {
                x: m01.add_spec(m10).mul_spec(k),
                y: s.mul_spec(half),
                z: m12.add_spec(m21).mul_spec(k),
                w: m02.sub_spec(m20).mul_spec(k),
            }
        } else {
            let s = m22.sub_spec(m00.add_spec(m11)).add_spec(one).sqrt_spec();
            let k = half.div_spec(s);
            Quat {
                x: m20.add_spec(m02).mul_spec(k),
                y: m12.add_spec(m21).mul_spec(k),
                z: s.mul_spec(half),
                w: m10.sub_spec(m01).mul_spec(k),
            }
        }
    }

    /// The quaternion that `rotate` reads off a rotation matrix, before it
    /// normalizes. The branches are those of Shepperd's method, taken on
    /// strict comparisons: the trace above zero, else the first entry of the
    /// diagonal above both others, else the second above the third. Each
    /// branch scales by the quarter of its divisor where `from_matrix_spec`
    /// scales by the half of a root.
    pub open spec fn from_trace_spec(m: Mat44<T>) -> Quat<T> {
        let zero = T::zero_spec();
        let one = T::one_spec();
        let two = T::two_spec();
        let quarter = T::quarter_spec();
        let m00 = m.at(0, 0);
        let m01 = m.at(0, 1);
        let m02 = m.at(0, 2);
        let m10 = m.at(1, 0);
        let m11 = m.at(1, 1);
        let m12 = m.at(1, 2);
        let m20 = m.at(2, 0);
        let m21 = m.at(2, 1);
        let m22 = m.at(2, 2);
        let trace = sum3(m00, m11, m22);
        if zero.lt_spec(trace) {
            let s = T::half_spec().div_spec(trace.add_spec(one).sqrt_spec());
            Quat {
                x: m21.sub_spec(m12).mul_spec(s),
                y: m02.sub_spec(m20).mul_spec(s),
                z: m10.sub_spec(m01).mul_spec(s),
                w: quarter.div_spec(s),
            }
        } else if m11.lt_spec(m00) && m22.lt_spec(m00) {
            let s = two.mul_spec(one.add_spec(m00).sub_spec(m11).sub_spec(m22).sqrt_spec());
            Quat {
                x: quarter.mul_spec(s),
                y: m01.add_spec(m10).div_spec(s),
                z: m02.add_spec(m20).div_spec(s),
                w: m21.sub_spec(m12).div_spec(s),
            }
        } else if m22.lt_spec(m11) {
            let s = two.mul_spec(one.add_spec(m11).sub_spec(m00).sub_spec(m22).sqrt_spec());
            Quat {
                x: m01.add_spec(m10).div_spec(s),
                y: quarter.mul_spec(s),
                z: m12.add_spec(m21).div_spec(s),
                w: m02.sub_spec(m20).div_spec(s),
            }
        } else {
            let s = two.mul_spec(one.add_spec(m22).sub_spec(m00).sub_spec(m11).sqrt_spec());
            Quat {
                x: m02.add_spec(m20).div_spec(s),
                y: m12.add_spec(m21).div_spec(s),
                z: quarter.mul_spec(s),
                w: m10.sub_spec(m01).div_spec(s),
            }
        }
    }

    /// The quaternion turned about the unit vector `axis` by `angle`, in
    /// radians: its matrix is rotated, read back and normalized.
    pub open spec fn rotated_spec(self, axis: Vec3<T>, angle: T) -> Quat<T> {
        Self::from_trace_spec(self.to_matrix_spec().rotated_spec(axis, angle)).normalized_spec()
    }

    /// The four-component dot product, the real parts first.
    pub open spec fn dot_spec(self, rhs: Quat<T>) -> T {
        self.w.mul_spec(rhs.w).add_spec(self.x.mul_spec(rhs.x)).add_spec(
            self.y.mul_spec(rhs.y),
        ).add_spec(self.z.mul_spec(rhs.z))
    }

    /// `(1 - t) a + t b`, component by component.
    pub open spec fn blended(a: Quat<T>, b: Quat<T>, t: T) -> Quat<T> {
        let u = T::one_spec().sub_spec(t);
        Quat {
            x: u.mul_spec(a.x).add_spec(t.mul_spec(b.x)),
            y: u.mul_spec(a.y).add_spec(t.mul_spec(b.y)),
            z: u.mul_spec(a.z).add_spec(t.mul_spec(b.z)),
            w: u.mul_spec(a.w).add_spec(t.mul_spec(b.w)),
        }
    }

    /// The normalized linear blend of `a` and `b` along the shorter way: where
    /// the dot product of the two is below zero, `b` is negated first.
    pub open spec fn slerp_spec(a: Quat<T>, b: Quat<T>, blend: T) -> Quat<T> {
        if a.dot_spec(b).lt_spec(T::zero_spec()) {
            Self::blended(a, b.negated(), blend).normalized_spec()
        } else {
            Self::blended(a, b, blend).normalized_spec()
        }
    }

    /// The vector `v` turned by the quaternion, through its rotation matrix.
    pub open spec fn turned(self, v: Vec3<T>) -> Vec3<T> {
        let t = self.to_matrix_spec().applied_to(
            Vec4 { x: v.x, y: v.y, z: v.z, w: T::zero_spec() },
        );
        Vec3 { x: t.x, y: t.y, z: t.z }
    }

    /// The rotation whose matrix has the columns `forward x up`, `up` and
    /// `forward`, both vectors normalized first; the result is normalized.
    pub open spec fn look_rotation_spec(f: Vec3<T>, u: Vec3<T>) -> Quat<T> {
        let zero = T::zero_spec();
        let forward = crate::glmath::normalized_spec(f);
        let up = crate::glmath::normalized_spec(u);
        let right = forward.cross_spec(up);
        Self::from_matrix_spec(
            Mat44::from_axes_spec(
                Vec4 { x: right.x, y: right.y, z: right.z, w: zero },
                Vec4 { x: up.x, y: up.y, z: up.z, w: zero },
                Vec4 { x: forward.x, y: forward.y, z: forward.z, w: zero },
                Vec4 { x: zero, y: zero, z: zero, w: T::one_spec() },
            ),
        ).normalized_spec()
    }

    /// The quaternion with the given components.
    pub fn new(x: T, y: T, z: T, w: T) -> (q: Quat<T>)
        ensures
            q == (Quat { x, y, z, w }),
    {
        Quat { x, y, z, w }
    }

    /// All four components zero.
    pub fn zero() -> (q: Quat<T>)
        ensures
            q == Self::zero_spec(),
    {
        Quat { x: T::zero(), y: T::zero(), z: T::zero(), w: T::zero() }
    }

    /// The rotation that turns nothing.
    pub fn identity() -> (q: Quat<T>)
        ensures
            q == Self::identity_spec(),
    {
        Quat { x: T::zero(), y: T::zero(), z: T::zero(), w: T::one() }
    }

    /// Sets the quaternion to the rotation that turns nothing.
    pub fn set_identity(&mut self)
        ensures
            *final(self) == Self::identity_spec(),
    {
        *self = Self::identity();
    }

    /// The quaternion of the Euler angles `euler`, in radians: roll in `x`,
    /// pitch in `y`, yaw in `z`.
    pub fn from_euler_angles(euler: Vec3<T>) -> (q: Quat<T>)
        ensures
            q == Self::from_euler_angles_spec(euler),
    {
        let yaw = euler.z;
        let pitch = euler.y;
        let roll = euler.x;

        let cy = yaw.mul(T::half()).cos();
        let sy = yaw.mul(T::half()).sin();
        let cp = pitch.mul(T::half()).cos();
        let sp = pitch.mul(T::half()).sin();
        let cr = roll.mul(T::half()).cos();
        let sr = roll.mul(T::half()).sin();

        let mut result = Quat {
            w: cr.mul(cp).mul(cy).add(sr.mul(sp).mul(sy)),
            x: sr.mul(cp).mul(cy).sub(cr.mul(sp).mul(sy)),
            y: cr.mul(sp).mul(cy).add(sr.mul(cp).mul(sy)),
            z: cr.mul(cp).mul(sy).sub(sr.mul(sp).mul(cy)),
        };

        result.normalize();
        result
    }

    /// Divides each component by the squared length of the quaternion,
    /// negating all but `x`, and normalizes what comes of it. Neither length
    /// is tested against zero.
    pub fn invert(&mut self)
        ensures
            *final(self) == old(self).inverted_spec(),
    {
        let mag = self.length_sq();

        self.x = self.x.div(mag);
        self.y = self.y.neg().div(mag);
        self.z = self.z.neg().div(mag);
        self.w = self.w.neg().div(mag);

        self.normalize();
    }

    /// What `invert` would make of the quaternion.
    pub fn get_inverted(&self) -> (q: Quat<T>)
        ensures
            q == self.inverted_spec(),
    {
        let mut quat = *self;
        quat.invert();
        quat
    }

    /// The quaternion of the rotation about `axis` by `angle`, in radians.
    /// The axis is taken to be of unit length.
    pub fn from_axis_angle(axis: Vec3<T>, angle: T) -> (q: Quat<T>)
        ensures
            q == Self::from_axis_angle_spec(axis, angle),
    {
        let s = angle.div(T::two()).sin();

        Quat {
            x: axis.x.mul(s),
            y: axis.y.mul(s),
            z: axis.z.mul(s),
            w: angle.div(T::two()).cos(),
        }
    }

    /// The rotation matrix of the quaternion, which is taken to be of unit
    /// length.
    pub fn to_matrix(&self) -> (m: Mat44<T>)
        ensures
            m == self.to_matrix_spec(),
    {
        let mut matrix = Mat44::<T>::zero();

        let xy = self.x.mul(self.y);
        let xz = self.x.mul(self.z);
        let xw = self.x.mul(self.w);
        let yz = self.y.mul(self.z);
        let yw = self.y.mul(self.w);
        let zw = self.z.mul(self.w);
        let x_sq = self.x.mul(self.x);
        let y_sq = self.y.mul(self.y);
        let z_sq = self.z.mul(self.z);

        matrix.data[0][0] = T::one().sub(T::two().mul(y_sq.add(z_sq)));
        matrix.data[0][1] = T::two().mul(xy.sub(zw));
        matrix.data[0][2] = T::two().mul(xz.add(yw));

        matrix.data[1][0] = T::two().mul(xy.add(zw));
        matrix.data[1][1] = T::one().sub(T::two().mul(x_sq.add(z_sq)));
        matrix.data[1][2] = T::two().mul(yz.sub(xw));

        matrix.data[2][0] = T::two().mul(xz.sub(yw));
        matrix.data[2][1] = T::two().mul(yz.add(xw));
        matrix.data[2][2] = T::one().sub(T::two().mul(x_sq.add(y_sq)));

        matrix.data[3][3] = T::one();

        proof {
            Mat44::lemma_same_entries(matrix, self.to_matrix_spec());
        }
        matrix
    }

    /// The Euler angles of the quaternion, in radians: roll in `x`, pitch in
    /// `y`, yaw in `z`. Near gimbal lock the pitch is a quarter turn.
    pub fn to_euler(&self) -> (e: Vec3<T>)
        ensures
            e == self.to_euler_spec(),
    {
        // Roll: rotation about the first axis.
        let sinr_cosp = T::two().mul(self.w.mul(self.x).add(self.y.mul(self.z)));
        let cosr_cosp = T::one().sub(T::two().mul(self.x.mul(self.x).add(self.y.mul(self.y))));
        let roll = T::atan2(sinr_cosp, cosr_cosp);

        // Pitch: rotation about the second axis.
        let sinp = T::two().mul(self.w.mul(self.y).sub(self.z.mul(self.x)));
        let mut pitch;

        if T::one().le(sinp) || sinp.le(T::one().neg()) {
            pitch = T::pi().div(T::two());

            if sinp.lt(T::zero()) {
                pitch = pitch.neg();
            }
        } else {
            pitch = sinp.asin();
        }

        // Yaw: rotation about the third axis.
        let siny_cosp = T::two().mul(self.w.mul(self.z).add(self.x.mul(self.y)));
        let cosy_cosp = T::one().sub(T::two().mul(self.y.mul(self.y).add(self.z.mul(self.z))));
        let yaw = T::atan2(siny_cosp, cosy_cosp);

        Vec3 { x: roll, y: pitch, z: yaw }
    }

    /// Turns the quaternion about `axis` by `angle`, in radians. The axis is
    /// taken to be of unit length.
    pub fn rotate(&mut self, axis: Vec3<T>, angle: T)
        ensures
            *final(self) == old(self).rotated_spec(axis, angle),
    {
        let mut matrix = self.to_matrix();
        matrix.rotate(axis, angle);

        let m00 = matrix.data[0][0];
        let m01 = matrix.data[0][1];
        let m02 = matrix.data[0][2];
        let m10 = matrix.data[1][0];
        let m11 = matrix.data[1][1];
        let m12 = matrix.data[1][2];
        let m20 = matrix.data[2][0];
        let m21 = matrix.data[2][1];
        let m22 = matrix.data[2][2];

        let trace = m00.add(m11).add(m22);

        if T::zero().lt(trace) {
            let s = T::half().div(trace.add(T::one()).sqrt());
            self.w = T::quarter().div(s);
            self.x = m21.sub(m12).mul(s);
            self.y = m02.sub(m20).mul(s);
            self.z = m10.sub(m01).mul(s);
        } else {
            if m11.lt(m00) && m22.lt(m00) {
                let s = T::two().mul(T::one().add(m00).sub(m11).sub(m22).sqrt());
                self.w = m21.sub(m12).div(s);
                self.x = T::quarter().mul(s);
                self.y = m01.add(m10).div(s);
                self.z = m02.add(m20).div(s);
            } else if m22.lt(m11) {
                let s = T::two().mul(T::one().add(m11).sub(m00).sub(m22).sqrt());
                self.w = m02.sub(m20).div(s);
                self.x = m01.add(m10).div(s);
                self.y = T::quarter().mul(s);
                self.z = m12.add(m21).div(s);
            } else {
                let s = T::two().mul(T::one().add(m22).sub(m00).sub(m11).sqrt());
                self.w = m10.sub(m01).div(s);
                self.x = m02.add(m20).div(s);
                self.y = m12.add(m21).div(s);
                self.z = T::quarter().mul(s);
            }
        }

        self.normalize();
    }

    /// The quaternion of a rotation matrix, by Shepperd's method.
    pub fn from_matrix(rot_mat: &Mat44<T>) -> (q: Quat<T>)
        ensures
            q == Self::from_matrix_spec(*rot_mat),
    {
        let m00 = rot_mat.data[0][0];
        let m01 = rot_mat.data[0][1];
        let m02 = rot_mat.data[0][2];

        let m10 = rot_mat.data[1][0];
        let m11 = rot_mat.data[1][1];
        let m12 = rot_mat.data[1][2];

        let m20 = rot_mat.data[2][0];
        let m21 = rot_mat.data[2][1];
        let m22 = rot_mat.data[2][2];

        let mut s;
        let tr = m00.add(m11).add(m22);

        let x: T;
        let y: T;
        let z: T;
        let w: T;

        if T::zero().le(tr) {
            s = tr.add(T::one()).sqrt();
            w = s.mul(T::half());
            s = T::half().div(s);

            x = m21.sub(m12).mul(s);
            y = m02.sub(m20).mul(s);
            z = m10.sub(m01).mul(s);
        } else {
            let max = T::max(T::max(m00, m11), m22);

            if max.eq(m00) {
                s = m00.sub(m11.add(m22)).add(T::one()).sqrt();
                x = s.mul(T::half());
                s = T::half().div(s);
                y = m01.add(m10).mul(s);
                z = m20.add(m02).mul(s);
                w = m21.sub(m12).mul(s);
            } else if max.eq(m11) {
                s = m11.sub(m22.add(m00)).add(T::one()).sqrt();
                y = s.mul(T::half());
                s = T::half().div(s);
                z = m12.add(m21).mul(s);
                x = m01.add(m10).mul(s);
                w = m02.sub(m20).mul(s);
            } else {
                s = m22.sub(m00.add(m11)).add(T::one()).sqrt();
                z = s.mul(T::half());
                s = T::half().div(s);
                x = m20.add(m02).mul(s);
                y = m12.add(m21).mul(s);
                w = m10.sub(m01).mul(s);
            }
        }

        Quat { x, y, z, w }
    }

    /// Blends `a` and `b` linearly, by `1 - blend` and `blend`, along the
    /// shorter way, and normalizes.
    pub fn slerp(a: Quat<T>, b: Quat<T>, blend: T) -> (q: Quat<T>)
        ensures
            q == Self::slerp_spec(a, b, blend),
    {
        let dot = a.w.mul(b.w).add(a.x.mul(b.x)).add(a.y.mul(b.y)).add(a.z.mul(b.z));
        let blend_i = T::one().sub(blend);

        let mut result = Quat::<T>::zero();

        if dot.lt(T::zero()) {
            result.w = blend_i.mul(a.w).add(blend.mul(b.w.neg()));
            result.x = blend_i.mul(a.x).add(blend.mul(b.x.neg()));
            result.y = blend_i.mul(a.y).add(blend.mul(b.y.neg()));
            result.z = blend_i.mul(a.z).add(blend.mul(b.z.neg()));
        } else {
            result.w = blend_i.mul(a.w).add(blend.mul(b.w));
            result.x = blend_i.mul(a.x).add(blend.mul(b.x));
            result.y = blend_i.mul(a.y).add(blend.mul(b.y));
            result.z = blend_i.mul(a.z).add(blend.mul(b.z));
        }

        result.normalize();
        result
    }

    /// Where the quaternion turns the backward third axis.
    pub fn forward(&self) -> (v: Vec3<T>)
        ensures
            v == self.turned(Vec3::unit_z_spec().negated()),
    {
        *self * Vec3::<T>::unit_z().neg()
    }

    /// Where the quaternion turns the second axis.
    pub fn up(&self) -> (v: Vec3<T>)
        ensures
            v == self.turned(Vec3::unit_y_spec()),
    {
        *self * Vec3::<T>::unit_y()
    }

    /// Where the quaternion turns the first axis.
    pub fn right(&self) -> (v: Vec3<T>)
        ensures
            v == self.turned(Vec3::unit_x_spec()),
    {
        *self * Vec3::<T>::unit_x()
    }

    /// Sets the quaternion to the rotation that looks along `f` with `u`
    /// upward.
    pub fn look_rotation(&mut self, f: Vec3<T>, u: Vec3<T>)
        ensures
            *final(self) == Self::look_rotation_spec(f, u),
    {
        let forward = f.get_normalized();
        let up = u.get_normalized();

        let right = forward.rem(up);

        let rot = Mat44::<T>::from_axes(
            Vec4::<T>::new(right.x, right.y, right.z, T::zero()),
            Vec4::<T>::new(up.x, up.y, up.z, T::zero()),
            Vec4::<T>::new(forward.x, forward.y, forward.z, T::zero()),
            Vec4::<T>::new(T::zero(), T::zero(), T::zero(), T::one()),
        );

        *self = Quat::<T>::from_matrix(&rot);
        self.normalize();
    }
}

impl<T: Vectorable> StandardQuat<T> for Quat<T> {
    open spec fn length_sq_spec(self) -> T {
        dot4(self.x, self.x, self.y, self.y, self.z, self.z, self.w, self.w)
    }

    open spec fn divided_by_spec(self, k: T) -> Quat<T> {
        Quat {
            x: self.x.div_spec(k),
            y: self.y.div_spec(k),
            z: self.z.div_spec(k),
            w: self.w.div_spec(k),
        }
    }

    fn length_sq(&self) -> (r: T) {
        self.x.mul(self.x).add(self.y.mul(self.y)).add(self.z.mul(self.z)).add(self.w.mul(self.w))
    }

    fn divided_by(&self, k: T) -> (r: Quat<T>) {
        Quat { x: self.x.div(k), y: self.y.div(k), z: self.z.div(k), w: self.w.div(k) }
    }
}

/// Two quaternions are equal where all four components compare equal.
impl<T: Vectorable> PartialEq for Quat<T> {
    fn eq(&self, other: &Self) -> (r: bool) {
        self.x.eq(other.x) && self.y.eq(other.y) && self.z.eq(other.z) && self.w.eq(other.w)
    }
}

impl<T: Vectorable> vstd::std_specs::cmp::PartialEqSpecImpl for Quat<T> {
    open spec fn obeys_eq_spec() -> bool {
        true
    }

    open spec fn eq_spec(&self, other: &Self) -> bool {
        &&& self.x.eq_spec(other.x)
        &&& self.y.eq_spec(other.y)
        &&& self.z.eq_spec(other.z)
        &&& self.w.eq_spec(other.w)
    }
}

impl<T: Vectorable> core::ops::Neg for Quat<T> {
    type Output = Quat<T>;

    fn neg(self) -> (r: Quat<T>)
        ensures
            r == self.negated(),
    {
        Quat { x: self.x.neg(), y: self.y.neg(), z: self.z.neg(), w: self.w.neg() }
    }
}

impl<T: Vectorable> vstd::std_specs::ops::NegSpecImpl for Quat<T> {
    open spec fn obeys_neg_spec() -> bool {
        true
    }

    open spec fn neg_req(self) -> bool {
        true
    }

    open spec fn neg_spec(self) -> Quat<T> {
        self.negated()
    }
}

impl<T: Vectorable> core::ops::Add<Quat<T>> for Quat<T> {
    type Output = Quat<T>;

    fn add(self, rhs: Quat<T>) -> (r: Quat<T>)
        ensures
            r == self.plus(rhs),
    {
        Quat {
            x: self.x.add(rhs.x),
            y: self.y.add(rhs.y),
            z: self.z.add(rhs.z),
            w: self.w.add(rhs.w),
        }
    }
}

impl<T: Vectorable> vstd::std_specs::ops::AddSpecImpl<Quat<T>> for Quat<T> {
    open spec fn obeys_add_spec() -> bool {
        true
    }

    open spec fn add_req(self, rhs: Quat<T>) -> bool {
        true
    }

    open spec fn add_spec(self, rhs: Quat<T>) -> Quat<T> {
        self.plus(rhs)
    }
}

impl<T: Vectorable> core::ops::AddAssign<Quat<T>> for Quat<T> {
    fn add_assign(&mut self, rhs: Quat<T>)
        ensures
            *final(self) == old(self).plus(rhs),
    {
        self.x = self.x.add(rhs.x);
        self.y = self.y.add(rhs.y);
        self.z = self.z.add(rhs.z);
        self.w = self.w.add(rhs.w);
    }
}

impl<T: Vectorable> core::ops::Sub<Quat<T>> for Quat<T> {
    type Output = Quat<T>;

    fn sub(self, rhs: Quat<T>) -> (r: Quat<T>)
        ensures
            r == self.minus(rhs),
    {
        Quat {
            x: self.x.sub(rhs.x),
            y: self.y.sub(rhs.y),
            z: self.z.sub(rhs.z),
            w: self.w.sub(rhs.w),
        }
    }
}

impl<T: Vectorable> vstd::std_specs::ops::SubSpecImpl<Quat<T>> for Quat<T> {
    open spec fn obeys_sub_spec() -> bool {
        true
    }

    open spec fn sub_req(self, rhs: Quat<T>) -> bool {
        true
    }

    open spec fn sub_spec(self, rhs: Quat<T>) -> Quat<T> {
        self.minus(rhs)
    }
}

impl<T: Vectorable> core::ops::SubAssign<Quat<T>> for Quat<T> {
    fn sub_assign(&mut self, rhs: Quat<T>)
        ensures
            *final(self) == old(self).minus(rhs),
    {
        self.x = self.x.sub(rhs.x);
        self.y = self.y.sub(rhs.y);
        self.z = self.z.sub(rhs.z);
        self.w = self.w.sub(rhs.w);
    }
}

/// Scaling by a scalar.
impl<T: Vectorable> core::ops::Mul<T> for Quat<T> {
    type Output = Quat<T>;

    fn mul(self, rhs: T) -> (r: Quat<T>)
        ensures
            r == self.scaled_by(rhs),
    {
        Quat {
            x: self.x.mul(rhs),
            y: self.y.mul(rhs),
            z: self.z.mul(rhs),
            w: self.w.mul(rhs),
        }
    }
}

impl<T: Vectorable> vstd::std_specs::ops::MulSpecImpl<T> for Quat<T> {
    open spec fn obeys_mul_spec() -> bool {
        true
    }

    open spec fn mul_req(self, rhs: T) -> bool {
        true
    }

    open spec fn mul_spec(self, rhs: T) -> Quat<T> {
        self.scaled_by(rhs)
    }
}

impl<T: Vectorable> core::ops::MulAssign<T> for Quat<T> {
    fn mul_assign(&mut self, rhs: T)
        ensures
            *final(self) == old(self).scaled_by(rhs),
    {
        self.x = self.x.mul(rhs);
        self.y = self.y.mul(rhs);
        self.z = self.z.mul(rhs);
        self.w = self.w.mul(rhs);
    }
}

/// Division by a scalar.
impl<T: Vectorable> core::ops::Div<T> for Quat<T> {
    type Output = Quat<T>;

    fn div(self, rhs: T) -> (r: Quat<T>)
        ensures
            r == self.divided_by_spec(rhs),
    {
        self.divided_by(rhs)
    }
}

impl<T: Vectorable> vstd::std_specs::ops::DivSpecImpl<T> for Quat<T> {
    open spec fn obeys_div_spec() -> bool {
        true
    }

    open spec fn div_req(self, rhs: T) -> bool {
        true
    }

    open spec fn div_spec(self, rhs: T) -> Quat<T> {
        self.divided_by_spec(rhs)
    }
}

impl<T: Vectorable> core::ops::DivAssign<T> for Quat<T> {
    fn div_assign(&mut self, rhs: T)
        ensures
            *final(self) == old(self).divided_by_spec(rhs),
    {
        self.x = self.x.div(rhs);
        self.y = self.y.div(rhs);
        self.z = self.z.div(rhs);
        self.w = self.w.div(rhs);
    }
}

/// The Hamilton product.
impl<T: Vectorable> core::ops::Mul<Quat<T>> for Quat<T> {
    type Output = Quat<T>;

    fn mul(self, rhs: Quat<T>) -> (r: Quat<T>)
        ensures
            r == self.times(rhs),
    {
        Quat {
            x: self.x.mul(rhs.w).add(self.w.mul(rhs.x)).add(self.y.mul(rhs.z)).sub(
                self.z.mul(rhs.y),
            ),
            y: self.y.mul(rhs.w).add(self.w.mul(rhs.y)).add(self.z.mul(rhs.x)).sub(
                self.x.mul(rhs.z),
            ),
            z: self.z.mul(rhs.w).add(self.w.mul(rhs.z)).add(self.x.mul(rhs.y)).sub(
                self.y.mul(rhs.x),
            ),
            w: self.w.mul(rhs.w).sub(self.x.mul(rhs.x)).sub(self.y.mul(rhs.y)).sub(
                self.z.mul(rhs.z),
            ),
        }
    }
}

impl<T: Vectorable> vstd::std_specs::ops::MulSpecImpl<Quat<T>> for Quat<T> {
    open spec fn obeys_mul_spec() -> bool {
        true
    }

    open spec fn mul_req(self, rhs: Quat<T>) -> bool {
        true
    }

    open spec fn mul_spec(self, rhs: Quat<T>) -> Quat<T> {
        self.times(rhs)
    }
}

impl<T: Vectorable> core::ops::MulAssign<Quat<T>> for Quat<T> {
    fn mul_assign(&mut self, rhs: Quat<T>)
        ensures
            *final(self) == old(self).times(rhs),
    {
        let x = self.x.mul(rhs.w).add(self.w.mul(rhs.x)).add(self.y.mul(rhs.z)).sub(
            self.z.mul(rhs.y),
        );
        let y = self.y.mul(rhs.w).add(self.w.mul(rhs.y)).add(self.z.mul(rhs.x)).sub(
            self.x.mul(rhs.z),
        );
        let z = self.z.mul(rhs.w).add(self.w.mul(rhs.z)).add(self.x.mul(rhs.y)).sub(
            self.y.mul(rhs.x),
        );
        let w = self.w.mul(rhs.w).sub(self.x.mul(rhs.x)).sub(self.y.mul(rhs.y)).sub(
            self.z.mul(rhs.z),
        );

        self.x = x;
        self.y = y;
        self.z = z;
        self.w = w;
    }
}

/// Turns a vector by the quaternion, through its rotation matrix.
impl<T: Vectorable> core::ops::Mul<Vec3<T>> for Quat<T> {
    type Output = Vec3<T>;

    fn mul(self, rhs: Vec3<T>) -> (r: Vec3<T>)
        ensures
            r == self.turned(rhs),
    {
        let trans = self.to_matrix();
        let v = trans * Vec4::<T>::new(rhs.x, rhs.y, rhs.z, T::zero());

        Vec3 { x: v.x, y: v.y, z: v.z }
    }
}

impl<T: Vectorable> vstd::std_specs::ops::MulSpecImpl<Vec3<T>> for Quat<T> {
    open spec fn obeys_mul_spec() -> bool {
        true
    }

    open spec fn mul_req(self, rhs: Vec3<T>) -> bool {
        true
    }

    open spec fn mul_spec(self, rhs: Vec3<T>) -> Vec3<T> {
        self.turned(rhs)
    }
}

impl<T: Vectorable> Quat<T> {
    /// The vector `v` of four components multiplied by the rotation matrix of
    /// the quaternion.
    pub open spec fn turned4(self, v: Vec4<T>) -> Vec4<T> {
        self.to_matrix_spec().applied_to(v)
    }
}

/// Multiplies a vector of four components by the rotation matrix of the
/// quaternion.
impl<T: Vectorable> core::ops::Mul<Vec4<T>> for Quat<T> {
    type Output = Vec4<T>;

    fn mul(self, rhs: Vec4<T>) -> (r: Vec4<T>)
        ensures
            r == self.turned4(rhs),
    {
        let trans = self.to_matrix();
        trans * rhs
    }
}

impl<T: Vectorable> vstd::std_specs::ops::MulSpecImpl<Vec4<T>> for Quat<T> {
    open spec fn obeys_mul_spec() -> bool {
        true
    }

    open spec fn mul_req(self, rhs: Vec4<T>) -> bool {
        true
    }

    open spec fn mul_spec(self, rhs: Vec4<T>) -> Vec4<T> {
        self.turned4(rhs)
    }
}

impl<T: Vectorable> QuaternionSwizzle<T> for Quat<T> {
    open spec fn x_spec(&self) -> T {
        self.x
    }

    open spec fn y_spec(&self) -> T {
        self.y
    }

    open spec fn z_spec(&self) -> T {
        self.z
    }

    open spec fn w_spec(&self) -> T {
        self.w
    }

    fn w(&self) -> (r: T) {
        self.w
    }

    fn xyzw(&self) -> (r: Quat<T>) {
        *self
    }

    fn yxzw(&self) -> (r: Quat<T>) {
        Quat { x: self.y, y: self.x, z: self.z, w: self.w }
    }

    fn zxyw(&self) -> (r: Quat<T>) {
        Quat { x: self.z, y: self.x, z: self.y, w: self.w }
    }

    fn xzyw(&self) -> (r: Quat<T>) {
        Quat { x: self.x, y: self.z, z: self.y, w: self.w }
    }

    fn yzxw(&self) -> (r: Quat<T>) {
        Quat { x: self.y, y: self.z, z: self.x, w: self.w }
    }

    fn zyxw(&self) -> (r: Quat<T>) {
        Quat { x: self.z, y: self.y, z: self.x, w: self.w }
    }

    fn zywx(&self) -> (r: Quat<T>) {
        Quat { x: self.z, y: self.y, z: self.w, w: self.x }
    }

    fn yzwx(&self) -> (r: Quat<T>) {
        Quat { x: self.y, y: self.z, z: self.w, w: self.x }
    }

    fn wzyx(&self) -> (r: Quat<T>) {
        Quat { x: self.w, y: self.z, z: self.y, w: self.x }
    }

    fn zwyx(&self) -> (r: Quat<T>) {
        Quat { x: self.z, y: self.w, z: self.y, w: self.x }
    }

    fn ywzx(&self) -> (r: Quat<T>) {
        Quat { x: self.y, y: self.w, z: self.z, w: self.x }
    }

    fn wyzx(&self) -> (r: Quat<T>) {
        Quat { x: self.w, y: self.y, z: self.z, w: self.x }
    }

    fn wxzy(&self) -> (r: Quat<T>) {
        Quat { x: self.w, y: self.x, z: self.z, w: self.y }
    }

    fn xwzy(&self) -> (r: Quat<T>) {
        Quat { x: self.x, y: self.w, z: self.z, w: self.y }
    }

    fn zwxy(&self) -> (r: Quat<T>) {
        Quat { x: self.z, y: self.w, z: self.x, w: self.y }
    }

    fn wzxy(&self) -> (r: Quat<T>) {
        Quat { x: self.w, y: self.z, z: self.x, w: self.y }
    }

    fn xzwy(&self) -> (r: Quat<T>) {
        Quat { x: self.x, y: self.z, z: self.w, w: self.y }
    }

    fn zxwy(&self) -> (r: Quat<T>) {
        Quat { x: self.z, y: self.x, z: self.w, w: self.y }
    }

    fn yxwz(&self) -> (r: Quat<T>) {
        Quat { x: self.y, y: self.x, z: self.w, w: self.z }
    }

    fn xywz(&self) -> (r: Quat<T>) {
        Quat { x: self.x, y: self.y, z: self.w, w: self.z }
    }

    fn wyxz(&self) -> (r: Quat<T>) {
        Quat { x: self.w, y: self.y, z: self.x, w: self.z }
    }

    fn ywxz(&self) -> (r: Quat<T>) {
        Quat { x: self.y, y: self.w, z: self.x, w: self.z }
    }

    fn xwyz(&self) -> (r: Quat<T>) {
        Quat { x: self.x, y: self.w, z: self.y, w: self.z }
    }

    fn wxyz(&self) -> (r: Quat<T>) {
        Quat { x: self.w, y: self.x, z: self.y, w: self.z }
    }
}

} // verus!
