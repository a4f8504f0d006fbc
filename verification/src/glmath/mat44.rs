//! Matrices of four columns and four rows, with the affine operations that
//! only they have.

use crate::glmath::mat33::skip;
use crate::glmath::vec3::Vec3;
use crate::glmath::vec4::Vec4;
use crate::glmath::vectorable::det33_spec;
use crate::glmath::vectorable::dot3;
use crate::glmath::vectorable::dot4;
use crate::glmath::vectorable::keeps_identities;
use crate::glmath::vectorable::sarrus;
use crate::glmath::vectorable::Vectorable;
use crate::glmath::StandardMat;
use crate::glmath::StandardMat44;
use vstd::prelude::*;

verus! {

/// A square matrix of four columns and four rows, stored by columns:
/// `data[c][r]` is the entry in column `c` and row `r`.
#[derive(Debug, Copy)]
pub struct Mat44<T: Vectorable> {
    pub data: [[T; 4]; 4],
}

impl<T: Vectorable> Clone for Mat44<T> {
    fn clone(&self) -> (r: Self)
        ensures
            r == *self,
    {
        *self
    }
}

/// The zero matrix.
impl<T: Vectorable> Default for Mat44<T> {
    fn default() -> (r: Self)
        ensures
            r == Self::zero_spec(),
    {
        Self::zero()
    }
}

/// One entry of the rotation about the unit vector `axis` whose angle has the
/// cosine `c` and the sine `s`, by Rodrigues' formula: `i` and `j` each name
/// one of the three axes.
pub open spec fn rotation_factor<T: Vectorable>(axis: Vec3<T>, c: T, s: T, i: int, j: int) -> T {
    let rest = T::one_spec().sub_spec(c);
    let xy = axis.x.mul_spec(axis.y);
    let yz = axis.y.mul_spec(axis.z);
    let xz = axis.x.mul_spec(axis.z);
    let xs = axis.x.mul_spec(s);
    let ys = axis.y.mul_spec(s);
    let zs = axis.z.mul_spec(s);
    if i == 0 {
        if j == 0 {
            axis.x.mul_spec(axis.x).mul_spec(rest).add_spec(c)
        } else if j == 1 {
            xy.mul_spec(rest).add_spec(zs)
        } else {
            xz.mul_spec(rest).sub_spec(ys)
        }
    } else if i == 1 {
        if j == 0 {
            xy.mul_spec(rest).sub_spec(zs)
        } else if j == 1 {
            axis.y.mul_spec(axis.y).mul_spec(rest).add_spec(c)
        } else {
            yz.mul_spec(rest).add_spec(xs)
        }
    } else {
        if j == 0 {
            xz.mul_spec(rest).add_spec(ys)
        } else if j == 1 {
            yz.mul_spec(rest).sub_spec(xs)
        } else {
            axis.z.mul_spec(axis.z).mul_spec(rest).add_spec(c)
        }
    }
}

impl<T: Vectorable> Mat44<T> {
    /// The entry in column `c` and row `r`.
    pub open spec fn at(self, c: int, r: int) -> T {
        self.data[c][r]
    }

    /// The matrix whose entry in column `c` and row `r` is `f(c, r)`.
    pub open spec fn build(f: spec_fn(int, int) -> T) -> Mat44<T> {
        Mat44 {
            data: [
                [f(0, 0), f(0, 1), f(0, 2), f(0, 3)],
                [f(1, 0), f(1, 1), f(1, 2), f(1, 3)],
                [f(2, 0), f(2, 1), f(2, 2), f(2, 3)],
                [f(3, 0), f(3, 1), f(3, 2), f(3, 3)],
            ],
        }
    }

    /// Column `c` as a vector.
    pub open spec fn column(self, c: int) -> Vec4<T> {
        Vec4 { x: self.at(c, 0), y: self.at(c, 1), z: self.at(c, 2), w: self.at(c, 3) }
    }

    /// Row `r` times the column vector `v`: the sum over the columns `k` of
    /// the entry in column `k` and row `r` times component `k` of `v`.
    pub open spec fn row_times(self, r: int, v: Vec4<T>) -> T {
        dot4(self.at(0, r), v.x, self.at(1, r), v.y, self.at(2, r), v.z, self.at(3, r), v.w)
    }

    /// Ones on the diagonal, zeros elsewhere.
    pub open spec fn identity_spec() -> Mat44<T> {
        Self::build(
            |c: int, r: int|
                if c == r {
                    T::one_spec()
                } else {
                    T::zero_spec()
                },
        )
    }

    /// Zeros everywhere.
    pub open spec fn zero_spec() -> Mat44<T> {
        Self::build(|c: int, r: int| T::zero_spec())
    }

    /// The matrix whose columns are the four vectors, in order.
    pub open spec fn from_axes_spec(x: Vec4<T>, y: Vec4<T>, z: Vec4<T>, w: Vec4<T>) -> Mat44<T> {
        Mat44 {
            data: [
                [x.x, x.y, x.z, x.w],
                [y.x, y.y, y.z, y.w],
                [z.x, z.y, z.z, z.w],
                [w.x, w.y, w.z, w.w],
            ],
        }
    }

    /// Every entry negated.
    pub open spec fn negated(self) -> Mat44<T> {
        Self::build(|c: int, r: int| self.at(c, r).neg_spec())
    }

    /// The entry-wise sum.
    pub open spec fn plus(self, rhs: Mat44<T>) -> Mat44<T> {
        Self::build(|c: int, r: int| self.at(c, r).add_spec(rhs.at(c, r)))
    }

    /// The entry-wise difference.
    pub open spec fn minus(self, rhs: Mat44<T>) -> Mat44<T> {
        Self::build(|c: int, r: int| self.at(c, r).sub_spec(rhs.at(c, r)))
    }

    /// The matrix product: the entry in column `c` and row `r` is row `r` of
    /// `self` times column `c` of `rhs`.
    pub open spec fn times(self, rhs: Mat44<T>) -> Mat44<T> {
        Self::build(|c: int, r: int| self.row_times(r, rhs.column(c)))
    }

    /// The matrix applied to a column vector.
    pub open spec fn applied_to(self, v: Vec4<T>) -> Vec4<T> {
        Vec4 {
            x: self.row_times(0, v),
            y: self.row_times(1, v),
            z: self.row_times(2, v),
            w: self.row_times(3, v),
        }
    }

    /// The determinant of what is left once column `i` and row `j` are struck
    /// out.
    pub open spec fn minor(self, i: int, j: int) -> T {
        det33_spec(
            self.at(skip(i, 0), skip(j, 0)),
            self.at(skip(i, 0), skip(j, 1)),
            self.at(skip(i, 0), skip(j, 2)),
            self.at(skip(i, 1), skip(j, 0)),
            self.at(skip(i, 1), skip(j, 1)),
            self.at(skip(i, 1), skip(j, 2)),
            self.at(skip(i, 2), skip(j, 0)),
            self.at(skip(i, 2), skip(j, 1)),
            self.at(skip(i, 2), skip(j, 2)),
        )
    }

    /// The minor with its sign: negated where `i + j` is odd.
    pub open spec fn cofactor(self, i: int, j: int) -> T {
        if (i + j) % 2 == 0 {
            self.minor(i, j)
        } else {
            self.minor(i, j).neg_spec()
        }
    }

    /// The adjugate, every entry multiplied by the reciprocal of the
    /// determinant: the entry in column `c` and row `r` comes from the
    /// cofactor of the entry in column `r` and row `c`.
    pub open spec fn adjugate_over_det(self) -> Mat44<T> {
        Self::build(
            |c: int, r: int|
                self.cofactor(r, c).mul_spec(T::one_spec().div_spec(self.det_spec())),
        )
    }

    /// The term of the determinant that belongs to the entry in column 0 and
    /// row `j`: the triple products of what is left once column 0 and row `j`
    /// are struck out.
    pub open spec fn det_term(self, j: int) -> T {
        sarrus(
            self.at(1, skip(j, 0)),
            self.at(1, skip(j, 1)),
            self.at(1, skip(j, 2)),
            self.at(2, skip(j, 0)),
            self.at(2, skip(j, 1)),
            self.at(2, skip(j, 2)),
            self.at(3, skip(j, 0)),
            self.at(3, skip(j, 1)),
            self.at(3, skip(j, 2)),
        )
    }

    /// The first three columns rotated by the factor that `rotation_factor`
    /// gives for `axis`, `c` and `s`; the fourth column stays.
    pub open spec fn rotated_with(self, axis: Vec3<T>, c: T, s: T) -> Mat44<T> {
        Self::build(
            |col: int, r: int|
                if col < 3 {
                    dot3(
                        self.at(0, r),
                        rotation_factor(axis, c, s, col, 0),
                        self.at(1, r),
                        rotation_factor(axis, c, s, col, 1),
                        self.at(2, r),
                        rotation_factor(axis, c, s, col, 2),
                    )
                } else {
                    self.at(col, r)
                },
        )
    }

    /// Two matrices with the same entries are the same matrix.
    pub proof fn lemma_same_entries(a: Mat44<T>, b: Mat44<T>)
        requires
            forall|c: int, r: int| 0 <= c < 4 && 0 <= r < 4 ==> a.at(c, r) == b.at(c, r),
        ensures
            a == b,
    {
        assert forall|c: int| 0 <= c < 4 implies a.data[c] == b.data[c] by {
            assert(a.at(c, 0) == b.at(c, 0));
            assert(a.at(c, 1) == b.at(c, 1));
            assert(a.at(c, 2) == b.at(c, 2));
            assert(a.at(c, 3) == b.at(c, 3));
            assert(a.data[c] =~= b.data[c]);
        }
        assert(a.data =~= b.data);
    }

    /// The identity matrix is neutral: multiplied from either side onto a
    /// matrix whose entries keep the identities of the scalar, it gives that
    /// matrix back.
    pub proof fn lemma_identity_is_neutral(m: Mat44<T>)
        requires
            keeps_identities(T::zero_spec()),
            forall|c: int, r: int|
                0 <= c < 4 && 0 <= r < 4 ==> keeps_identities(#[trigger] m.at(c, r)),
        ensures
            Self::identity_spec().times(m) == m,
            m.times(Self::identity_spec()) == m,
    {
        let id = Self::identity_spec();
        assert forall|c: int, r: int| 0 <= c < 4 && 0 <= r < 4 implies id.times(m).at(c, r)
            == m.at(c, r) by {
            assert(keeps_identities(m.at(c, 0)));
            assert(keeps_identities(m.at(c, 1)));
            assert(keeps_identities(m.at(c, 2)));
            assert(keeps_identities(m.at(c, 3)));
        }
        assert forall|c: int, r: int| 0 <= c < 4 && 0 <= r < 4 implies m.times(id).at(c, r)
            == m.at(c, r) by {
            assert(keeps_identities(m.at(0, r)));
            assert(keeps_identities(m.at(1, r)));
            assert(keeps_identities(m.at(2, r)));
            assert(keeps_identities(m.at(3, r)));
        }
        Self::lemma_same_entries(id.times(m), m);
        Self::lemma_same_entries(m.times(id), m);
    }

    /// The identity matrix.
    pub fn new() -> (m: Mat44<T>)
        ensures
            m == Self::identity_spec(),
    {
        Self::identity()
    }

    /// Ones on the diagonal, zeros elsewhere.
    pub fn identity() -> (m: Mat44<T>)
        ensures
            m == Self::identity_spec(),
    {
        let o = T::one();
        let z = T::zero();
        Mat44 { data: [[o, z, z, z], [z, o, z, z], [z, z, o, z], [z, z, z, o]] }
    }

    /// Zeros everywhere.
    pub fn zero() -> (m: Mat44<T>)
        ensures
            m == Self::zero_spec(),
    {
        let z = T::zero();
        Mat44 { data: [[z, z, z, z], [z, z, z, z], [z, z, z, z], [z, z, z, z]] }
    }

    /// The entry in column `c` and row `r`.
    pub fn entry(&self, c: usize, r: usize) -> (e: T)
        requires
            c < 4,
            r < 4,
        ensures
            e == self.at(c as int, r as int),
    {
        self.data[c][r]
    }

    /// Builds a matrix from its four columns.
    pub fn from_axes(x: Vec4<T>, y: Vec4<T>, z: Vec4<T>, w: Vec4<T>) -> (m: Mat44<T>)
        ensures
            m == Self::from_axes_spec(x, y, z, w),
    {
        Mat44 {
            data: [
                [x.x, x.y, x.z, x.w],
                [y.x, y.y, y.z, y.w],
                [z.x, z.y, z.z, z.w],
                [w.x, w.y, w.z, w.w],
            ],
        }
    }
}

/// Two matrices are equal where all their entries compare equal.
impl<T: Vectorable> PartialEq for Mat44<T> {
    fn eq(&self, other: &Self) -> (r: bool) {
        let same = self.data[0][0].eq(other.data[0][0])
            && self.data[0][1].eq(other.data[0][1])
            && self.data[0][2].eq(other.data[0][2])
            && self.data[0][3].eq(other.data[0][3])
            && self.data[1][0].eq(other.data[1][0])
            && self.data[1][1].eq(other.data[1][1])
            && self.data[1][2].eq(other.data[1][2])
            && self.data[1][3].eq(other.data[1][3])
            && self.data[2][0].eq(other.data[2][0])
            && self.data[2][1].eq(other.data[2][1])
            && self.data[2][2].eq(other.data[2][2])
            && self.data[2][3].eq(other.data[2][3])
            && self.data[3][0].eq(other.data[3][0])
            && self.data[3][1].eq(other.data[3][1])
            && self.data[3][2].eq(other.data[3][2])
            && self.data[3][3].eq(other.data[3][3]);
        proof {
            if !same {
                assert(!self.at(0, 0).eq_spec(other.at(0, 0))
                    || !self.at(0, 1).eq_spec(other.at(0, 1))
                    || !self.at(0, 2).eq_spec(other.at(0, 2))
                    || !self.at(0, 3).eq_spec(other.at(0, 3))
                    || !self.at(1, 0).eq_spec(other.at(1, 0))
                    || !self.at(1, 1).eq_spec(other.at(1, 1))
                    || !self.at(1, 2).eq_spec(other.at(1, 2))
                    || !self.at(1, 3).eq_spec(other.at(1, 3))
                    || !self.at(2, 0).eq_spec(other.at(2, 0))
                    || !self.at(2, 1).eq_spec(other.at(2, 1))
                    || !self.at(2, 2).eq_spec(other.at(2, 2))
                    || !self.at(2, 3).eq_spec(other.at(2, 3))
                    || !self.at(3, 0).eq_spec(other.at(3, 0))
                    || !self.at(3, 1).eq_spec(other.at(3, 1))
                    || !self.at(3, 2).eq_spec(other.at(3, 2))
                    || !self.at(3, 3).eq_spec(other.at(3, 3))
                );
            }
        }
        same
    }
}

impl<T: Vectorable> vstd::std_specs::cmp::PartialEqSpecImpl for Mat44<T> {
    open spec fn obeys_eq_spec() -> bool {
        true
    }

    open spec fn eq_spec(&self, other: &Self) -> bool {
        forall|c: int, r: int|
            0 <= c < 4 && 0 <= r < 4 ==> (#[trigger] self.at(c, r)).eq_spec(other.at(c, r))
    }
}

impl<T: Vectorable> core::ops::Neg for Mat44<T> {
    type Output = Mat44<T>;

    fn neg(self) -> (r: Mat44<T>)
        ensures
            r == self.negated(),
    {
        Mat44 {
            data: [
                [
                    self.data[0][0].neg(),
                    self.data[0][1].neg(),
                    self.data[0][2].neg(),
                    self.data[0][3].neg(),
                ],
                [
                    self.data[1][0].neg(),
                    self.data[1][1].neg(),
                    self.data[1][2].neg(),
                    self.data[1][3].neg(),
                ],
                [
                    self.data[2][0].neg(),
                    self.data[2][1].neg(),
                    self.data[2][2].neg(),
                    self.data[2][3].neg(),
                ],
                [
                    self.data[3][0].neg(),
                    self.data[3][1].neg(),
                    self.data[3][2].neg(),
                    self.data[3][3].neg(),
                ],
            ],
        }
    }
}

impl<T: Vectorable> vstd::std_specs::ops::NegSpecImpl for Mat44<T> {
    open spec fn obeys_neg_spec() -> bool {
        true
    }

    open spec fn neg_req(self) -> bool {
        true
    }

    open spec fn neg_spec(self) -> Mat44<T> {
        self.negated()
    }
}

impl<T: Vectorable> core::ops::Add<Mat44<T>> for Mat44<T> {
    type Output = Mat44<T>;

    fn add(self, rhs: Mat44<T>) -> (r: Mat44<T>)
        ensures
            r == self.plus(rhs),
    {
        Mat44 {
            data: [
                [
                    self.data[0][0].add(rhs.data[0][0]),
                    self.data[0][1].add(rhs.data[0][1]),
                    self.data[0][2].add(rhs.data[0][2]),
                    self.data[0][3].add(rhs.data[0][3]),
                ],
                [
                    self.data[1][0].add(rhs.data[1][0]),
                    self.data[1][1].add(rhs.data[1][1]),
                    self.data[1][2].add(rhs.data[1][2]),
                    self.data[1][3].add(rhs.data[1][3]),
                ],
                [
                    self.data[2][0].add(rhs.data[2][0]),
                    self.data[2][1].add(rhs.data[2][1]),
                    self.data[2][2].add(rhs.data[2][2]),
                    self.data[2][3].add(rhs.data[2][3]),
                ],
                [
                    self.data[3][0].add(rhs.data[3][0]),
                    self.data[3][1].add(rhs.data[3][1]),
                    self.data[3][2].add(rhs.data[3][2]),
                    self.data[3][3].add(rhs.data[3][3]),
                ],
            ],
        }
    }
}

impl<T: Vectorable> vstd::std_specs::ops::AddSpecImpl<Mat44<T>> for Mat44<T> {
    open spec fn obeys_add_spec() -> bool {
        true
    }

    open spec fn add_req(self, rhs: Mat44<T>) -> bool {
        true
    }

    open spec fn add_spec(self, rhs: Mat44<T>) -> Mat44<T> {
        self.plus(rhs)
    }
}

impl<T: Vectorable> core::ops::AddAssign<Mat44<T>> for Mat44<T> {
    fn add_assign(&mut self, rhs: Mat44<T>)
        ensures
            *final(self) == old(self).plus(rhs),
    {
        self.data[0][0] = self.data[0][0].add(rhs.data[0][0]);
        self.data[0][1] = self.data[0][1].add(rhs.data[0][1]);
        self.data[0][2] = self.data[0][2].add(rhs.data[0][2]);
        self.data[0][3] = self.data[0][3].add(rhs.data[0][3]);
        self.data[1][0] = self.data[1][0].add(rhs.data[1][0]);
        self.data[1][1] = self.data[1][1].add(rhs.data[1][1]);
        self.data[1][2] = self.data[1][2].add(rhs.data[1][2]);
        self.data[1][3] = self.data[1][3].add(rhs.data[1][3]);
        self.data[2][0] = self.data[2][0].add(rhs.data[2][0]);
        self.data[2][1] = self.data[2][1].add(rhs.data[2][1]);
        self.data[2][2] = self.data[2][2].add(rhs.data[2][2]);
        self.data[2][3] = self.data[2][3].add(rhs.data[2][3]);
        self.data[3][0] = self.data[3][0].add(rhs.data[3][0]);
        self.data[3][1] = self.data[3][1].add(rhs.data[3][1]);
        self.data[3][2] = self.data[3][2].add(rhs.data[3][2]);
        self.data[3][3] = self.data[3][3].add(rhs.data[3][3]);
        proof {
            Self::lemma_same_entries(*self, old(self).plus(rhs));
        }
    }
}

impl<T: Vectorable> core::ops::Sub<Mat44<T>> for Mat44<T> {
    type Output = Mat44<T>;

    fn sub(self, rhs: Mat44<T>) -> (r: Mat44<T>)
        ensures
            r == self.minus(rhs),
    {
        Mat44 {
            data: [
                [
                    self.data[0][0].sub(rhs.data[0][0]),
                    self.data[0][1].sub(rhs.data[0][1]),
                    self.data[0][2].sub(rhs.data[0][2]),
                    self.data[0][3].sub(rhs.data[0][3]),
                ],
                [
                    self.data[1][0].sub(rhs.data[1][0]),
                    self.data[1][1].sub(rhs.data[1][1]),
                    self.data[1][2].sub(rhs.data[1][2]),
                    self.data[1][3].sub(rhs.data[1][3]),
                ],
                [
                    self.data[2][0].sub(rhs.data[2][0]),
                    self.data[2][1].sub(rhs.data[2][1]),
                    self.data[2][2].sub(rhs.data[2][2]),
                    self.data[2][3].sub(rhs.data[2][3]),
                ],
                [
                    self.data[3][0].sub(rhs.data[3][0]),
                    self.data[3][1].sub(rhs.data[3][1]),
                    self.data[3][2].sub(rhs.data[3][2]),
                    self.data[3][3].sub(rhs.data[3][3]),
                ],
            ],
        }
    }
}

impl<T: Vectorable> vstd::std_specs::ops::SubSpecImpl<Mat44<T>> for Mat44<T> {
    open spec fn obeys_sub_spec() -> bool {
        true
    }

    open spec fn sub_req(self, rhs: Mat44<T>) -> bool {
        true
    }

    open spec fn sub_spec(self, rhs: Mat44<T>) -> Mat44<T> {
        self.minus(rhs)
    }
}

impl<T: Vectorable> core::ops::SubAssign<Mat44<T>> for Mat44<T> {
    fn sub_assign(&mut self, rhs: Mat44<T>)
        ensures
            *final(self) == old(self).minus(rhs),
    {
        self.data[0][0] = self.data[0][0].sub(rhs.data[0][0]);
        self.data[0][1] = self.data[0][1].sub(rhs.data[0][1]);
        self.data[0][2] = self.data[0][2].sub(rhs.data[0][2]);
        self.data[0][3] = self.data[0][3].sub(rhs.data[0][3]);
        self.data[1][0] = self.data[1][0].sub(rhs.data[1][0]);
        self.data[1][1] = self.data[1][1].sub(rhs.data[1][1]);
        self.data[1][2] = self.data[1][2].sub(rhs.data[1][2]);
        self.data[1][3] = self.data[1][3].sub(rhs.data[1][3]);
        self.data[2][0] = self.data[2][0].sub(rhs.data[2][0]);
        self.data[2][1] = self.data[2][1].sub(rhs.data[2][1]);
        self.data[2][2] = self.data[2][2].sub(rhs.data[2][2]);
        self.data[2][3] = self.data[2][3].sub(rhs.data[2][3]);
        self.data[3][0] = self.data[3][0].sub(rhs.data[3][0]);
        self.data[3][1] = self.data[3][1].sub(rhs.data[3][1]);
        self.data[3][2] = self.data[3][2].sub(rhs.data[3][2]);
        self.data[3][3] = self.data[3][3].sub(rhs.data[3][3]);
        proof {
            Self::lemma_same_entries(*self, old(self).minus(rhs));
        }
    }
}

/// The matrix product.
impl<T: Vectorable> core::ops::Mul<Mat44<T>> for Mat44<T> {
    type Output = Mat44<T>;

    fn mul(self, rhs: Mat44<T>) -> (r: Mat44<T>)
        ensures
            r == self.times(rhs),
    {
        let t00 = self.data[0][0].mul(rhs.data[0][0])
            .add(self.data[1][0].mul(rhs.data[0][1]))
            .add(self.data[2][0].mul(rhs.data[0][2]))
            .add(self.data[3][0].mul(rhs.data[0][3]));
        let t01 = self.data[0][1].mul(rhs.data[0][0])
            .add(self.data[1][1].mul(rhs.data[0][1]))
            .add(self.data[2][1].mul(rhs.data[0][2]))
            .add(self.data[3][1].mul(rhs.data[0][3]));
        let t02 = self.data[0][2].mul(rhs.data[0][0])
            .add(self.data[1][2].mul(rhs.data[0][1]))
            .add(self.data[2][2].mul(rhs.data[0][2]))
            .add(self.data[3][2].mul(rhs.data[0][3]));
        let t03 = self.data[0][3].mul(rhs.data[0][0])
            .add(self.data[1][3].mul(rhs.data[0][1]))
            .add(self.data[2][3].mul(rhs.data[0][2]))
            .add(self.data[3][3].mul(rhs.data[0][3]));
        let t10 = self.data[0][0].mul(rhs.data[1][0])
            .add(self.data[1][0].mul(rhs.data[1][1]))
            .add(self.data[2][0].mul(rhs.data[1][2]))
            .add(self.data[3][0].mul(rhs.data[1][3]));
        let t11 = self.data[0][1].mul(rhs.data[1][0])
            .add(self.data[1][1].mul(rhs.data[1][1]))
            .add(self.data[2][1].mul(rhs.data[1][2]))
            .add(self.data[3][1].mul(rhs.data[1][3]));
        let t12 = self.data[0][2].mul(rhs.data[1][0])
            .add(self.data[1][2].mul(rhs.data[1][1]))
            .add(self.data[2][2].mul(rhs.data[1][2]))
            .add(self.data[3][2].mul(rhs.data[1][3]));
        let t13 = self.data[0][3].mul(rhs.data[1][0])
            .add(self.data[1][3].mul(rhs.data[1][1]))
            .add(self.data[2][3].mul(rhs.data[1][2]))
            .add(self.data[3][3].mul(rhs.data[1][3]));
        let t20 = self.data[0][0].mul(rhs.data[2][0])
            .add(self.data[1][0].mul(rhs.data[2][1]))
            .add(self.data[2][0].mul(rhs.data[2][2]))
            .add(self.data[3][0].mul(rhs.data[2][3]));
        let t21 = self.data[0][1].mul(rhs.data[2][0])
            .add(self.data[1][1].mul(rhs.data[2][1]))
            .add(self.data[2][1].mul(rhs.data[2][2]))
            .add(self.data[3][1].mul(rhs.data[2][3]));
        let t22 = self.data[0][2].mul(rhs.data[2][0])
            .add(self.data[1][2].mul(rhs.data[2][1]))
            .add(self.data[2][2].mul(rhs.data[2][2]))
            .add(self.data[3][2].mul(rhs.data[2][3]));
        let t23 = self.data[0][3].mul(rhs.data[2][0])
            .add(self.data[1][3].mul(rhs.data[2][1]))
            .add(self.data[2][3].mul(rhs.data[2][2]))
            .add(self.data[3][3].mul(rhs.data[2][3]));
        let t30 = self.data[0][0].mul(rhs.data[3][0])
            .add(self.data[1][0].mul(rhs.data[3][1]))
            .add(self.data[2][0].mul(rhs.data[3][2]))
            .add(self.data[3][0].mul(rhs.data[3][3]));
        let t31 = self.data[0][1].mul(rhs.data[3][0])
            .add(self.data[1][1].mul(rhs.data[3][1]))
            .add(self.data[2][1].mul(rhs.data[3][2]))
            .add(self.data[3][1].mul(rhs.data[3][3]));
        let t32 = self.data[0][2].mul(rhs.data[3][0])
            .add(self.data[1][2].mul(rhs.data[3][1]))
            .add(self.data[2][2].mul(rhs.data[3][2]))
            .add(self.data[3][2].mul(rhs.data[3][3]));
        let t33 = self.data[0][3].mul(rhs.data[3][0])
            .add(self.data[1][3].mul(rhs.data[3][1]))
            .add(self.data[2][3].mul(rhs.data[3][2]))
            .add(self.data[3][3].mul(rhs.data[3][3]));

        Mat44 {
            data: [
                [t00, t01, t02, t03],
                [t10, t11, t12, t13],
                [t20, t21, t22, t23],
                [t30, t31, t32, t33],
            ],
        }
    }
}

impl<T: Vectorable> vstd::std_specs::ops::MulSpecImpl<Mat44<T>> for Mat44<T> {
    open spec fn obeys_mul_spec() -> bool {
        true
    }

    open spec fn mul_req(self, rhs: Mat44<T>) -> bool {
        true
    }

    open spec fn mul_spec(self, rhs: Mat44<T>) -> Mat44<T> {
        self.times(rhs)
    }
}

impl<T: Vectorable> core::ops::MulAssign<Mat44<T>> for Mat44<T> {
    fn mul_assign(&mut self, rhs: Mat44<T>)
        ensures
            *final(self) == old(self).times(rhs),
    {
        let t00 = self.data[0][0].mul(rhs.data[0][0])
            .add(self.data[1][0].mul(rhs.data[0][1]))
            .add(self.data[2][0].mul(rhs.data[0][2]))
            .add(self.data[3][0].mul(rhs.data[0][3]));
        let t01 = self.data[0][1].mul(rhs.data[0][0])
            .add(self.data[1][1].mul(rhs.data[0][1]))
            .add(self.data[2][1].mul(rhs.data[0][2]))
            .add(self.data[3][1].mul(rhs.data[0][3]));
        let t02 = self.data[0][2].mul(rhs.data[0][0])
            .add(self.data[1][2].mul(rhs.data[0][1]))
            .add(self.data[2][2].mul(rhs.data[0][2]))
            .add(self.data[3][2].mul(rhs.data[0][3]));
        let t03 = self.data[0][3].mul(rhs.data[0][0])
            .add(self.data[1][3].mul(rhs.data[0][1]))
            .add(self.data[2][3].mul(rhs.data[0][2]))
            .add(self.data[3][3].mul(rhs.data[0][3]));
        let t10 = self.data[0][0].mul(rhs.data[1][0])
            .add(self.data[1][0].mul(rhs.data[1][1]))
            .add(self.data[2][0].mul(rhs.data[1][2]))
            .add(self.data[3][0].mul(rhs.data[1][3]));
        let t11 = self.data[0][1].mul(rhs.data[1][0])
            .add(self.data[1][1].mul(rhs.data[1][1]))
            .add(self.data[2][1].mul(rhs.data[1][2]))
            .add(self.data[3][1].mul(rhs.data[1][3]));
        let t12 = self.data[0][2].mul(rhs.data[1][0])
            .add(self.data[1][2].mul(rhs.data[1][1]))
            .add(self.data[2][2].mul(rhs.data[1][2]))
            .add(self.data[3][2].mul(rhs.data[1][3]));
        let t13 = self.data[0][3].mul(rhs.data[1][0])
            .add(self.data[1][3].mul(rhs.data[1][1]))
            .add(self.data[2][3].mul(rhs.data[1][2]))
            .add(self.data[3][3].mul(rhs.data[1][3]));
        let t20 = self.data[0][0].mul(rhs.data[2][0])
            .add(self.data[1][0].mul(rhs.data[2][1]))
            .add(self.data[2][0].mul(rhs.data[2][2]))
            .add(self.data[3][0].mul(rhs.data[2][3]));
        let t21 = self.data[0][1].mul(rhs.data[2][0])
            .add(self.data[1][1].mul(rhs.data[2][1]))
            .add(self.data[2][1].mul(rhs.data[2][2]))
            .add(self.data[3][1].mul(rhs.data[2][3]));
        let t22 = self.data[0][2].mul(rhs.data[2][0])
            .add(self.data[1][2].mul(rhs.data[2][1]))
            .add(self.data[2][2].mul(rhs.data[2][2]))
            .add(self.data[3][2].mul(rhs.data[2][3]));
        let t23 = self.data[0][3].mul(rhs.data[2][0])
            .add(self.data[1][3].mul(rhs.data[2][1]))
            .add(self.data[2][3].mul(rhs.data[2][2]))
            .add(self.data[3][3].mul(rhs.data[2][3]));
        let t30 = self.data[0][0].mul(rhs.data[3][0])
            .add(self.data[1][0].mul(rhs.data[3][1]))
            .add(self.data[2][0].mul(rhs.data[3][2]))
            .add(self.data[3][0].mul(rhs.data[3][3]));
        let t31 = self.data[0][1].mul(rhs.data[3][0])
            .add(self.data[1][1].mul(rhs.data[3][1]))
            .add(self.data[2][1].mul(rhs.data[3][2]))
            .add(self.data[3][1].mul(rhs.data[3][3]));
        let t32 = self.data[0][2].mul(rhs.data[3][0])
            .add(self.data[1][2].mul(rhs.data[3][1]))
            .add(self.data[2][2].mul(rhs.data[3][2]))
            .add(self.data[3][2].mul(rhs.data[3][3]));
        let t33 = self.data[0][3].mul(rhs.data[3][0])
            .add(self.data[1][3].mul(rhs.data[3][1]))
            .add(self.data[2][3].mul(rhs.data[3][2]))
            .add(self.data[3][3].mul(rhs.data[3][3]));

        self.data[0][0] = t00;
        self.data[0][1] = t01;
        self.data[0][2] = t02;
        self.data[0][3] = t03;
        self.data[1][0] = t10;
        self.data[1][1] = t11;
        self.data[1][2] = t12;
        self.data[1][3] = t13;
        self.data[2][0] = t20;
        self.data[2][1] = t21;
        self.data[2][2] = t22;
        self.data[2][3] = t23;
        self.data[3][0] = t30;
        self.data[3][1] = t31;
        self.data[3][2] = t32;
        self.data[3][3] = t33;
        proof {
            Self::lemma_same_entries(*self, old(self).times(rhs));
        }
    }
}

/// The matrix applied to a column vector.
impl<T: Vectorable> core::ops::Mul<Vec4<T>> for Mat44<T> {
    type Output = Vec4<T>;

    fn mul(self, rhs: Vec4<T>) -> (r: Vec4<T>)
        ensures
            r == self.applied_to(rhs),
    {
        let x = self.data[0][0].mul(rhs.x)
            .add(self.data[1][0].mul(rhs.y))
            .add(self.data[2][0].mul(rhs.z))
            .add(self.data[3][0].mul(rhs.w));
        let y = self.data[0][1].mul(rhs.x)
            .add(self.data[1][1].mul(rhs.y))
            .add(self.data[2][1].mul(rhs.z))
            .add(self.data[3][1].mul(rhs.w));
        let z = self.data[0][2].mul(rhs.x)
            .add(self.data[1][2].mul(rhs.y))
            .add(self.data[2][2].mul(rhs.z))
            .add(self.data[3][2].mul(rhs.w));
        let w = self.data[0][3].mul(rhs.x)
            .add(self.data[1][3].mul(rhs.y))
            .add(self.data[2][3].mul(rhs.z))
            .add(self.data[3][3].mul(rhs.w));

        Vec4 { x, y, z, w }
    }
}

impl<T: Vectorable> vstd::std_specs::ops::MulSpecImpl<Vec4<T>> for Mat44<T> {
    open spec fn obeys_mul_spec() -> bool {
        true
    }

    open spec fn mul_req(self, rhs: Vec4<T>) -> bool {
        true
    }

    open spec fn mul_spec(self, rhs: Vec4<T>) -> Vec4<T> {
        self.applied_to(rhs)
    }
}

impl<T: Vectorable> StandardMat<T> for Mat44<T> {
    open spec fn transposed_spec(self) -> Mat44<T> {
        Self::build(|c: int, r: int| self.at(r, c))
    }

    /// The expansion along column 0, its four terms taken with alternating
    /// sign from left to right.
    open spec fn det_spec(self) -> T {
        self.at(0, 0).mul_spec(self.det_term(0)).sub_spec(
            self.at(0, 1).mul_spec(self.det_term(1)),
        ).add_spec(self.at(0, 2).mul_spec(self.det_term(2))).sub_spec(
            self.at(0, 3).mul_spec(self.det_term(3)),
        )
    }

    open spec fn inverted_spec(self) -> Mat44<T> {
        if self.det_spec().eq_spec(T::zero_spec()) {
            self
        } else {
            self.adjugate_over_det()
        }
    }

    fn transpose(&mut self) {
        let t00 = self.data[0][0];
        let t01 = self.data[1][0];
        let t02 = self.data[2][0];
        let t03 = self.data[3][0];
        let t10 = self.data[0][1];
        let t11 = self.data[1][1];
        let t12 = self.data[2][1];
        let t13 = self.data[3][1];
        let t20 = self.data[0][2];
        let t21 = self.data[1][2];
        let t22 = self.data[2][2];
        let t23 = self.data[3][2];
        let t30 = self.data[0][3];
        let t31 = self.data[1][3];
        let t32 = self.data[2][3];
        let t33 = self.data[3][3];

        self.data[0][0] = t00;
        self.data[0][1] = t01;
        self.data[0][2] = t02;
        self.data[0][3] = t03;
        self.data[1][0] = t10;
        self.data[1][1] = t11;
        self.data[1][2] = t12;
        self.data[1][3] = t13;
        self.data[2][0] = t20;
        self.data[2][1] = t21;
        self.data[2][2] = t22;
        self.data[2][3] = t23;
        self.data[3][0] = t30;
        self.data[3][1] = t31;
        self.data[3][2] = t32;
        self.data[3][3] = t33;
        proof {
            Self::lemma_same_entries(*self, old(self).transposed_spec());
        }
    }

    fn invert(&mut self) {
        let determinant = self.det();

        if !determinant.eq(T::zero()) {
            let determinant_inv = T::one().div(determinant);

            // Cofactors of column 0.
            let t00 = det33(
                self.data[1][1],
                self.data[1][2],
                self.data[1][3],
                self.data[2][1],
                self.data[2][2],
                self.data[2][3],
                self.data[3][1],
                self.data[3][2],
                self.data[3][3],
            );
            let t01 = det33(
                self.data[1][0],
                self.data[1][2],
                self.data[1][3],
                self.data[2][0],
                self.data[2][2],
                self.data[2][3],
                self.data[3][0],
                self.data[3][2],
                self.data[3][3],
            ).neg();
            let t02 = det33(
                self.data[1][0],
                self.data[1][1],
                self.data[1][3],
                self.data[2][0],
                self.data[2][1],
                self.data[2][3],
                self.data[3][0],
                self.data[3][1],
                self.data[3][3],
            );
            let t03 = det33(
                self.data[1][0],
                self.data[1][1],
                self.data[1][2],
                self.data[2][0],
                self.data[2][1],
                self.data[2][2],
                self.data[3][0],
                self.data[3][1],
                self.data[3][2],
            ).neg();
            // Cofactors of column 1.
            let t10 = det33(
                self.data[0][1],
                self.data[0][2],
                self.data[0][3],
                self.data[2][1],
                self.data[2][2],
                self.data[2][3],
                self.data[3][1],
                self.data[3][2],
                self.data[3][3],
            ).neg();
            let t11 = det33(
                self.data[0][0],
                self.data[0][2],
                self.data[0][3],
                self.data[2][0],
                self.data[2][2],
                self.data[2][3],
                self.data[3][0],
                self.data[3][2],
                self.data[3][3],
            );
            let t12 = det33(
                self.data[0][0],
                self.data[0][1],
                self.data[0][3],
                self.data[2][0],
                self.data[2][1],
                self.data[2][3],
                self.data[3][0],
                self.data[3][1],
                self.data[3][3],
            ).neg();
            let t13 = det33(
                self.data[0][0],
                self.data[0][1],
                self.data[0][2],
                self.data[2][0],
                self.data[2][1],
                self.data[2][2],
                self.data[3][0],
                self.data[3][1],
                self.data[3][2],
            );
            // Cofactors of column 2.
            let t20 = det33(
                self.data[0][1],
                self.data[0][2],
                self.data[0][3],
                self.data[1][1],
                self.data[1][2],
                self.data[1][3],
                self.data[3][1],
                self.data[3][2],
                self.data[3][3],
            );
            let t21 = det33(
                self.data[0][0],
                self.data[0][2],
                self.data[0][3],
                self.data[1][0],
                self.data[1][2],
                self.data[1][3],
                self.data[3][0],
                self.data[3][2],
                self.data[3][3],
            ).neg();
            let t22 = det33(
                self.data[0][0],
                self.data[0][1],
                self.data[0][3],
                self.data[1][0],
                self.data[1][1],
                self.data[1][3],
                self.data[3][0],
                self.data[3][1],
                self.data[3][3],
            );
            let t23 = det33(
                self.data[0][0],
                self.data[0][1],
                self.data[0][2],
                self.data[1][0],
                self.data[1][1],
                self.data[1][2],
                self.data[3][0],
                self.data[3][1],
                self.data[3][2],
            ).neg();
            // Cofactors of column 3.
            let t30 = det33(
                self.data[0][1],
                self.data[0][2],
                self.data[0][3],
                self.data[1][1],
                self.data[1][2],
                self.data[1][3],
                self.data[2][1],
                self.data[2][2],
                self.data[2][3],
            ).neg();
            let t31 = det33(
                self.data[0][0],
                self.data[0][2],
                self.data[0][3],
                self.data[1][0],
                self.data[1][2],
                self.data[1][3],
                self.data[2][0],
                self.data[2][2],
                self.data[2][3],
            );
            let t32 = det33(
                self.data[0][0],
                self.data[0][1],
                self.data[0][3],
                self.data[1][0],
                self.data[1][1],
                self.data[1][3],
                self.data[2][0],
                self.data[2][1],
                self.data[2][3],
            ).neg();
            let t33 = det33(
                self.data[0][0],
                self.data[0][1],
                self.data[0][2],
                self.data[1][0],
                self.data[1][1],
                self.data[1][2],
                self.data[2][0],
                self.data[2][1],
                self.data[2][2],
            );

            // The adjugate is the transpose of the cofactors.
            self.data[0][0] = t00.mul(determinant_inv);
            self.data[1][0] = t01.mul(determinant_inv);
            self.data[2][0] = t02.mul(determinant_inv);
            self.data[3][0] = t03.mul(determinant_inv);
            self.data[0][1] = t10.mul(determinant_inv);
            self.data[1][1] = t11.mul(determinant_inv);
            self.data[2][1] = t12.mul(determinant_inv);
            self.data[3][1] = t13.mul(determinant_inv);
            self.data[0][2] = t20.mul(determinant_inv);
            self.data[1][2] = t21.mul(determinant_inv);
            self.data[2][2] = t22.mul(determinant_inv);
            self.data[3][2] = t23.mul(determinant_inv);
            self.data[0][3] = t30.mul(determinant_inv);
            self.data[1][3] = t31.mul(determinant_inv);
            self.data[2][3] = t32.mul(determinant_inv);
            self.data[3][3] = t33.mul(determinant_inv);
            proof {
                Self::lemma_same_entries(*self, old(self).adjugate_over_det());
            }
        }
    }

    fn det(&self) -> (d: T) {
        let mut f = self.data[0][0].mul(
            triple_products(
                self.data[1][1],
                self.data[1][2],
                self.data[1][3],
                self.data[2][1],
                self.data[2][2],
                self.data[2][3],
                self.data[3][1],
                self.data[3][2],
                self.data[3][3],
            ),
        );
        f = f.sub(
            self.data[0][1].mul(
                triple_products(
                    self.data[1][0],
                    self.data[1][2],
                    self.data[1][3],
                    self.data[2][0],
                    self.data[2][2],
                    self.data[2][3],
                    self.data[3][0],
                    self.data[3][2],
                    self.data[3][3],
                ),
            ),
        );
        f = f.add(
            self.data[0][2].mul(
                triple_products(
                    self.data[1][0],
                    self.data[1][1],
                    self.data[1][3],
                    self.data[2][0],
                    self.data[2][1],
                    self.data[2][3],
                    self.data[3][0],
                    self.data[3][1],
                    self.data[3][3],
                ),
            ),
        );
        f = f.sub(
            self.data[0][3].mul(
                triple_products(
                    self.data[1][0],
                    self.data[1][1],
                    self.data[1][2],
                    self.data[2][0],
                    self.data[2][1],
                    self.data[2][2],
                    self.data[3][0],
                    self.data[3][1],
                    self.data[3][2],
                ),
            ),
        );
        f
    }
}

/// The determinant of a matrix of three rows and three columns, given by its
/// nine entries row after row.
pub fn det33<T: Vectorable>(
    t00: T,
    t01: T,
    t02: T,
    t10: T,
    t11: T,
    t12: T,
    t20: T,
    t21: T,
    t22: T,
) -> (d: T)
    ensures
        d == det33_spec(t00, t01, t02, t10, t11, t12, t20, t21, t22),
{
    t00.mul(t11.mul(t22).sub(t12.mul(t21))).add(t01.mul(t12.mul(t20).sub(t10.mul(t22)))).add(
        t02.mul(t10.mul(t21).sub(t11.mul(t20))),
    )
}

/// The triple products of a matrix of three rows and three columns, given by
/// its nine entries row after row.
fn triple_products<T: Vectorable>(
    t00: T,
    t01: T,
    t02: T,
    t10: T,
    t11: T,
    t12: T,
    t20: T,
    t21: T,
    t22: T,
) -> (d: T)
    ensures
        d == sarrus(t00, t01, t02, t10, t11, t12, t20, t21, t22),
{
    t00.mul(t11).mul(t22).add(t01.mul(t12).mul(t20)).add(t02.mul(t10).mul(t21)).sub(
        t02.mul(t11).mul(t20),
    ).sub(t00.mul(t12).mul(t21)).sub(t01.mul(t10).mul(t22))
}

impl<T: Vectorable> StandardMat44<T> for Mat44<T> {
    open spec fn scaled_spec(self, scale: Vec3<T>) -> Mat44<T> {
        Self::build(
            |c: int, r: int|
                if c == 0 {
                    self.at(c, r).mul_spec(scale.x)
                } else if c == 1 {
                    self.at(c, r).mul_spec(scale.y)
                } else if c == 2 {
                    self.at(c, r).mul_spec(scale.z)
                } else {
                    self.at(c, r)
                },
        )
    }

    open spec fn translated_spec(self, pos: Vec3<T>) -> Mat44<T> {
        Self::build(
            |c: int, r: int|
                if c == 3 {
                    self.at(3, r).add_spec(
                        dot3(self.at(0, r), pos.x, self.at(1, r), pos.y, self.at(2, r), pos.z),
                    )
                } else {
                    self.at(c, r)
                },
        )
    }

    open spec fn rotated_spec(self, axis: Vec3<T>, angle: T) -> Mat44<T> {
        self.rotated_with(axis, angle.cos_spec(), angle.sin_spec())
    }

    fn scale(&mut self, scale: Vec3<T>) {
        self.data[0][0] = self.data[0][0].mul(scale.x);
        self.data[0][1] = self.data[0][1].mul(scale.x);
        self.data[0][2] = self.data[0][2].mul(scale.x);
        self.data[0][3] = self.data[0][3].mul(scale.x);
        self.data[1][0] = self.data[1][0].mul(scale.y);
        self.data[1][1] = self.data[1][1].mul(scale.y);
        self.data[1][2] = self.data[1][2].mul(scale.y);
        self.data[1][3] = self.data[1][3].mul(scale.y);
        self.data[2][0] = self.data[2][0].mul(scale.z);
        self.data[2][1] = self.data[2][1].mul(scale.z);
        self.data[2][2] = self.data[2][2].mul(scale.z);
        self.data[2][3] = self.data[2][3].mul(scale.z);
        proof {
            Self::lemma_same_entries(*self, old(self).scaled_spec(scale));
        }
    }

    fn translate(&mut self, pos: Vec3<T>) {
        self.data[3][0] = self.data[3][0].add(
            self.data[0][0].mul(pos.x)
                .add(self.data[1][0].mul(pos.y))
                .add(self.data[2][0].mul(pos.z)),
        );
        self.data[3][1] = self.data[3][1].add(
            self.data[0][1].mul(pos.x)
                .add(self.data[1][1].mul(pos.y))
                .add(self.data[2][1].mul(pos.z)),
        );
        self.data[3][2] = self.data[3][2].add(
            self.data[0][2].mul(pos.x)
                .add(self.data[1][2].mul(pos.y))
                .add(self.data[2][2].mul(pos.z)),
        );
        self.data[3][3] = self.data[3][3].add(
            self.data[0][3].mul(pos.x)
                .add(self.data[1][3].mul(pos.y))
                .add(self.data[2][3].mul(pos.z)),
        );
        proof {
            Self::lemma_same_entries(*self, old(self).translated_spec(pos));
        }
    }

    fn rotate(&mut self, axis: Vec3<T>, angle: T) {
        let c = angle.cos();
        let s = angle.sin();

        let oneminusc = T::one().sub(c);
        let xy = axis.x.mul(axis.y);
        let yz = axis.y.mul(axis.z);
        let xz = axis.x.mul(axis.z);
        let xs = axis.x.mul(s);
        let ys = axis.y.mul(s);
        let zs = axis.z.mul(s);

        let f00 = axis.x.mul(axis.x).mul(oneminusc).add(c);
        let f01 = xy.mul(oneminusc).add(zs);
        let f02 = xz.mul(oneminusc).sub(ys);

        let f10 = xy.mul(oneminusc).sub(zs);
        let f11 = axis.y.mul(axis.y).mul(oneminusc).add(c);
        let f12 = yz.mul(oneminusc).add(xs);

        let f20 = xz.mul(oneminusc).add(ys);
        let f21 = yz.mul(oneminusc).sub(xs);
        let f22 = axis.z.mul(axis.z).mul(oneminusc).add(c);

        let t00 = self.data[0][0].mul(f00)
            .add(self.data[1][0].mul(f01))
            .add(self.data[2][0].mul(f02));
        let t01 = self.data[0][1].mul(f00)
            .add(self.data[1][1].mul(f01))
            .add(self.data[2][1].mul(f02));
        let t02 = self.data[0][2].mul(f00)
            .add(self.data[1][2].mul(f01))
            .add(self.data[2][2].mul(f02));
        let t03 = self.data[0][3].mul(f00)
            .add(self.data[1][3].mul(f01))
            .add(self.data[2][3].mul(f02));
        let t10 = self.data[0][0].mul(f10)
            .add(self.data[1][0].mul(f11))
            .add(self.data[2][0].mul(f12));
        let t11 = self.data[0][1].mul(f10)
            .add(self.data[1][1].mul(f11))
            .add(self.data[2][1].mul(f12));
        let t12 = self.data[0][2].mul(f10)
            .add(self.data[1][2].mul(f11))
            .add(self.data[2][2].mul(f12));
        let t13 = self.data[0][3].mul(f10)
            .add(self.data[1][3].mul(f11))
            .add(self.data[2][3].mul(f12));
        let t20 = self.data[0][0].mul(f20)
            .add(self.data[1][0].mul(f21))
            .add(self.data[2][0].mul(f22));
        let t21 = self.data[0][1].mul(f20)
            .add(self.data[1][1].mul(f21))
            .add(self.data[2][1].mul(f22));
        let t22 = self.data[0][2].mul(f20)
            .add(self.data[1][2].mul(f21))
            .add(self.data[2][2].mul(f22));
        let t23 = self.data[0][3].mul(f20)
            .add(self.data[1][3].mul(f21))
            .add(self.data[2][3].mul(f22));

        self.data[0][0] = t00;
        self.data[0][1] = t01;
        self.data[0][2] = t02;
        self.data[0][3] = t03;
        self.data[1][0] = t10;
        self.data[1][1] = t11;
        self.data[1][2] = t12;
        self.data[1][3] = t13;
        self.data[2][0] = t20;
        self.data[2][1] = t21;
        self.data[2][2] = t22;
        self.data[2][3] = t23;
        proof {
            Self::lemma_same_entries(*self, old(self).rotated_spec(axis, angle));
        }
    }
}

} // verus!
