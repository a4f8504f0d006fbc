//! Matrices of three columns and three rows.

use crate::glmath::vec3::Vec3;
use crate::glmath::vectorable::det33_spec;
use crate::glmath::vectorable::dot3;
use crate::glmath::vectorable::keeps_identities;
use crate::glmath::vectorable::Vectorable;
use crate::glmath::StandardMat;
use vstd::prelude::*;

verus! {

/// A square matrix of three columns and three rows, stored by columns: the
/// entry in column `c` and row `r` is `data[c][r]`, and `at(c, r)` in
/// contracts.
#[derive(Debug, Copy)]
pub struct Mat33<T: Vectorable> {
    data: [[T; 3]; 3],
}

impl<T: Vectorable> Clone for Mat33<T> {
    fn clone(&self) -> (r: Self)
        ensures
            r == *self,
    {
        *self
    }
}

/// The zero matrix.
impl<T: Vectorable> Default for Mat33<T> {
    fn default() -> (r: Self)
        ensures
            r == Self::zero_spec(),
    {
        Self::zero()
    }
}

/// The index that stands `k` places along once index `i` is left out.
pub open spec fn skip(i: int, k: int) -> int {
    if k < i {
        k
    } else {
        k + 1
    }
}

impl<T: Vectorable> Mat33<T> {
    /// The entry in column `c` and row `r`.
    pub closed spec fn at(self, c: int, r: int) -> T {
        self.data[c][r]
    }

    /// The matrix whose entry in column `c` and row `r` is `f(c, r)`.
    pub closed spec fn build(f: spec_fn(int, int) -> T) -> Mat33<T> {
        Mat33 {
            data: [
                [f(0, 0), f(0, 1), f(0, 2)],
                [f(1, 0), f(1, 1), f(1, 2)],
                [f(2, 0), f(2, 1), f(2, 2)],
            ],
        }
    }

    /// Column `c` as a vector.
    pub open spec fn column(self, c: int) -> Vec3<T> {
        Vec3 { x: self.at(c, 0), y: self.at(c, 1), z: self.at(c, 2) }
    }

    /// Row `r` times the column vector `v`: the sum over the columns `k` of
    /// the entry in column `k` and row `r` times component `k` of `v`.
    pub open spec fn row_times(self, r: int, v: Vec3<T>) -> T {
        dot3(self.at(0, r), v.x, self.at(1, r), v.y, self.at(2, r), v.z)
    }

    /// Ones on the diagonal, zeros elsewhere.
    pub open spec fn identity_spec() -> Mat33<T> {
        Self::build(
            |c: int, r: int|
                if c == r {
                    T::one_spec()
                } else {
                    T::zero_spec()
                },
        )
    }

    /// Zeros everywhere.
    pub open spec fn zero_spec() -> Mat33<T> {
        Self::build(|c: int, r: int| T::zero_spec())
    }

    /// The matrix whose columns are the three vectors, in order.
    pub open spec fn from_axes_spec(x: Vec3<T>, y: Vec3<T>, z: Vec3<T>) -> Mat33<T> {
        Self::build(
            |c: int, r: int|
                if c == 0 {
                    x.component(r)
                } else if c == 1 {
                    y.component(r)
                } else {
                    z.component(r)
                },
        )
    }

    /// Every entry negated.
    pub open spec fn negated(self) -> Mat33<T> {
        Self::build(|c: int, r: int| self.at(c, r).neg_spec())
    }

    /// The entry-wise sum.
    pub open spec fn plus(self, rhs: Mat33<T>) -> Mat33<T> {
        Self::build(|c: int, r: int| self.at(c, r).add_spec(rhs.at(c, r)))
    }

    /// The entry-wise difference.
    pub open spec fn minus(self, rhs: Mat33<T>) -> Mat33<T> {
        Self::build(|c: int, r: int| self.at(c, r).sub_spec(rhs.at(c, r)))
    }

    /// The matrix product: the entry in column `c` and row `r` is row `r` of
    /// `self` times column `c` of `rhs`.
    pub open spec fn times(self, rhs: Mat33<T>) -> Mat33<T> {
        Self::build(|c: int, r: int| self.row_times(r, rhs.column(c)))
    }

    /// The matrix applied to a column vector.
    pub open spec fn applied_to(self, v: Vec3<T>) -> Vec3<T> {
        Vec3 { x: self.row_times(0, v), y: self.row_times(1, v), z: self.row_times(2, v) }
    }

    /// The cofactor that belongs to column `i` and row `j`: the determinant
    /// `a d - b c` of the four entries that are left once that column and
    /// that row are struck out. Where `i + j` is odd it carries the opposite
    /// sign, and is taken as `(-a) d + b c`.
    pub open spec fn cofactor(self, i: int, j: int) -> T {
        let a = self.at(skip(i, 0), skip(j, 0));
        let b = self.at(skip(i, 0), skip(j, 1));
        let c = self.at(skip(i, 1), skip(j, 0));
        let d = self.at(skip(i, 1), skip(j, 1));
        if (i + j) % 2 == 0 {
            a.mul_spec(d).sub_spec(b.mul_spec(c))
        } else {
            a.neg_spec().mul_spec(d).add_spec(b.mul_spec(c))
        }
    }

    /// The adjugate, every entry multiplied by the reciprocal of the
    /// determinant: the entry in column `c` and row `r` comes from the
    /// cofactor that belongs to column `r` and row `c`.
    pub open spec fn adjugate_over_det(self) -> Mat33<T> {
        Self::build(
            |c: int, r: int|
                self.cofactor(r, c).mul_spec(T::one_spec().div_spec(self.det_spec())),
        )
    }

    /// A built matrix holds `f(c, r)` in column `c` and row `r`.
    pub proof fn lemma_build_at(f: spec_fn(int, int) -> T, c: int, r: int)
        requires
            0 <= c < 3,
            0 <= r < 3,
        ensures
            Self::build(f).at(c, r) == f(c, r),
    {
    }

    /// Two matrices with the same entries are the same matrix.
    pub proof fn lemma_same_entries(a: Mat33<T>, b: Mat33<T>)
        requires
            forall|c: int, r: int| 0 <= c < 3 && 0 <= r < 3 ==> a.at(c, r) == b.at(c, r),
        ensures
            a == b,
    {
        assert forall|c: int| 0 <= c < 3 implies a.data[c] == b.data[c] by {
            assert(a.at(c, 0) == b.at(c, 0));
            assert(a.at(c, 1) == b.at(c, 1));
            assert(a.at(c, 2) == b.at(c, 2));
            assert(a.data[c] =~= b.data[c]);
        }
        assert(a.data =~= b.data);
    }

    /// The identity matrix is neutral: multiplied from either side onto a
    /// matrix whose entries keep the identities of the scalar, it gives that
    /// matrix back.
    pub proof fn lemma_identity_is_neutral(m: Mat33<T>)
        requires
            keeps_identities(T::zero_spec()),
            forall|c: int, r: int|
                0 <= c < 3 && 0 <= r < 3 ==> keeps_identities(#[trigger] m.at(c, r)),
        ensures
            Self::identity_spec().times(m) == m,
            m.times(Self::identity_spec()) == m,
    {
        let id = Self::identity_spec();
        assert forall|c: int, r: int| 0 <= c < 3 && 0 <= r < 3 implies id.times(m).at(c, r)
            == m.at(c, r) by {
            assert(keeps_identities(m.at(c, 0)));
            assert(keeps_identities(m.at(c, 1)));
            assert(keeps_identities(m.at(c, 2)));
        }
        assert forall|c: int, r: int| 0 <= c < 3 && 0 <= r < 3 implies m.times(id).at(c, r)
            == m.at(c, r) by {
            assert(keeps_identities(m.at(0, r)));
            assert(keeps_identities(m.at(1, r)));
            assert(keeps_identities(m.at(2, r)));
        }
        Self::lemma_same_entries(id.times(m), m);
        Self::lemma_same_entries(m.times(id), m);
    }

    /// The identity matrix.
    pub fn new() -> (m: Mat33<T>)
        ensures
            m == Self::identity_spec(),
    {
        Self::identity()
    }

    /// Ones on the diagonal, zeros elsewhere.
    pub fn identity() -> (m: Mat33<T>)
        ensures
            m == Self::identity_spec(),
    {
        let o = T::one();
        let z = T::zero();
        Mat33 { data: [[o, z, z], [z, o, z], [z, z, o]] }
    }

    /// Zeros everywhere.
    pub fn zero() -> (m: Mat33<T>)
        ensures
            m == Self::zero_spec(),
    {
        let z = T::zero();
        Mat33 { data: [[z, z, z], [z, z, z], [z, z, z]] }
    }

    /// The entry in column `c` and row `r`.
    pub fn entry(&self, c: usize, r: usize) -> (e: T)
        requires
            c < 3,
            r < 3,
        ensures
            e == self.at(c as int, r as int),
    {
        self.data[c][r]
    }

    /// Builds a matrix from its three columns.
    pub fn from_axes(x: Vec3<T>, y: Vec3<T>, z: Vec3<T>) -> (m: Mat33<T>)
        ensures
            m == Self::from_axes_spec(x, y, z),
    {
        Mat33 {
            data: [
                [x.x, x.y, x.z],
                [y.x, y.y, y.z],
                [z.x, z.y, z.z],
            ],
        }
    }
}

/// Two matrices are equal where all their entries compare equal.
impl<T: Vectorable> PartialEq for Mat33<T> {
    fn eq(&self, other: &Self) -> (r: bool) {
        let same = self.data[0][0].eq(other.data[0][0])
            && self.data[0][1].eq(other.data[0][1])
            && self.data[0][2].eq(other.data[0][2])
            && self.data[1][0].eq(other.data[1][0])
            && self.data[1][1].eq(other.data[1][1])
            && self.data[1][2].eq(other.data[1][2])
            && self.data[2][0].eq(other.data[2][0])
            && self.data[2][1].eq(other.data[2][1])
            && self.data[2][2].eq(other.data[2][2]);
        proof {
            if !same {
                assert(!self.at(0, 0).eq_spec(other.at(0, 0))
                    || !self.at(0, 1).eq_spec(other.at(0, 1))
                    || !self.at(0, 2).eq_spec(other.at(0, 2))
                    || !self.at(1, 0).eq_spec(other.at(1, 0))
                    || !self.at(1, 1).eq_spec(other.at(1, 1))
                    || !self.at(1, 2).eq_spec(other.at(1, 2))
                    || !self.at(2, 0).eq_spec(other.at(2, 0))
                    || !self.at(2, 1).eq_spec(other.at(2, 1))
                    || !self.at(2, 2).eq_spec(other.at(2, 2))
                );
            }
        }
        same
    }
}

impl<T: Vectorable> vstd::std_specs::cmp::PartialEqSpecImpl for Mat33<T> {
    open spec fn obeys_eq_spec() -> bool {
        true
    }

    open spec fn eq_spec(&self, other: &Self) -> bool {
        forall|c: int, r: int|
            0 <= c < 3 && 0 <= r < 3 ==> (#[trigger] self.at(c, r)).eq_spec(other.at(c, r))
    }
}

impl<T: Vectorable> core::ops::Neg for Mat33<T> {
    type Output = Mat33<T>;

    fn neg(self) -> (r: Mat33<T>)
        ensures
            r == self.negated(),
    {
        Mat33 {
            data: [
                [self.data[0][0].neg(), self.data[0][1].neg(), self.data[0][2].neg()],
                [self.data[1][0].neg(), self.data[1][1].neg(), self.data[1][2].neg()],
                [self.data[2][0].neg(), self.data[2][1].neg(), self.data[2][2].neg()],
            ],
        }
    }
}

impl<T: Vectorable> vstd::std_specs::ops::NegSpecImpl for Mat33<T> {
    open spec fn obeys_neg_spec() -> bool {
        true
    }

    open spec fn neg_req(self) -> bool {
        true
    }

    open spec fn neg_spec(self) -> Mat33<T> {
        self.negated()
    }
}

impl<T: Vectorable> core::ops::Add<Mat33<T>> for Mat33<T> {
    type Output = Mat33<T>;

    fn add(self, rhs: Mat33<T>) -> (r: Mat33<T>)
        ensures
            r == self.plus(rhs),
    {
        Mat33 {
            data: [
                [
                    self.data[0][0].add(rhs.data[0][0]),
                    self.data[0][1].add(rhs.data[0][1]),
                    self.data[0][2].add(rhs.data[0][2]),
                ],
                [
                    self.data[1][0].add(rhs.data[1][0]),
                    self.data[1][1].add(rhs.data[1][1]),
                    self.data[1][2].add(rhs.data[1][2]),
                ],
                [
                    self.data[2][0].add(rhs.data[2][0]),
                    self.data[2][1].add(rhs.data[2][1]),
                    self.data[2][2].add(rhs.data[2][2]),
                ],
            ],
        }
    }
}

impl<T: Vectorable> vstd::std_specs::ops::AddSpecImpl<Mat33<T>> for Mat33<T> {
    open spec fn obeys_add_spec() -> bool {
        true
    }

    open spec fn add_req(self, rhs: Mat33<T>) -> bool {
        true
    }

    open spec fn add_spec(self, rhs: Mat33<T>) -> Mat33<T> {
        self.plus(rhs)
    }
}

impl<T: Vectorable> core::ops::AddAssign<Mat33<T>> for Mat33<T> {
    fn add_assign(&mut self, rhs: Mat33<T>)
        ensures
            *final(self) == old(self).plus(rhs),
    {
        self.data[0][0] = self.data[0][0].add(rhs.data[0][0]);
        self.data[0][1] = self.data[0][1].add(rhs.data[0][1]);
        self.data[0][2] = self.data[0][2].add(rhs.data[0][2]);
        self.data[1][0] = self.data[1][0].add(rhs.data[1][0]);
        self.data[1][1] = self.data[1][1].add(rhs.data[1][1]);
        self.data[1][2] = self.data[1][2].add(rhs.data[1][2]);
        self.data[2][0] = self.data[2][0].add(rhs.data[2][0]);
        self.data[2][1] = self.data[2][1].add(rhs.data[2][1]);
        self.data[2][2] = self.data[2][2].add(rhs.data[2][2]);
        proof {
            Self::lemma_same_entries(*self, old(self).plus(rhs));
        }
    }
}

impl<T: Vectorable> core::ops::Sub<Mat33<T>> for Mat33<T> {
    type Output = Mat33<T>;

    fn sub(self, rhs: Mat33<T>) -> (r: Mat33<T>)
        ensures
            r == self.minus(rhs),
    {
        Mat33 {
            data: [
                [
                    self.data[0][0].sub(rhs.data[0][0]),
                    self.data[0][1].sub(rhs.data[0][1]),
                    self.data[0][2].sub(rhs.data[0][2]),
                ],
                [
                    self.data[1][0].sub(rhs.data[1][0]),
                    self.data[1][1].sub(rhs.data[1][1]),
                    self.data[1][2].sub(rhs.data[1][2]),
                ],
                [
                    self.data[2][0].sub(rhs.data[2][0]),
                    self.data[2][1].sub(rhs.data[2][1]),
                    self.data[2][2].sub(rhs.data[2][2]),
                ],
            ],
        }
    }
}

impl<T: Vectorable> vstd::std_specs::ops::SubSpecImpl<Mat33<T>> for Mat33<T> {
    open spec fn obeys_sub_spec() -> bool {
        true
    }

    open spec fn sub_req(self, rhs: Mat33<T>) -> bool {
        true
    }

    open spec fn sub_spec(self, rhs: Mat33<T>) -> Mat33<T> {
        self.minus(rhs)
    }
}

impl<T: Vectorable> core::ops::SubAssign<Mat33<T>> for Mat33<T> {
    fn sub_assign(&mut self, rhs: Mat33<T>)
        ensures
            *final(self) == old(self).minus(rhs),
    {
        self.data[0][0] = self.data[0][0].sub(rhs.data[0][0]);
        self.data[0][1] = self.data[0][1].sub(rhs.data[0][1]);
        self.data[0][2] = self.data[0][2].sub(rhs.data[0][2]);
        self.data[1][0] = self.data[1][0].sub(rhs.data[1][0]);
        self.data[1][1] = self.data[1][1].sub(rhs.data[1][1]);
        self.data[1][2] = self.data[1][2].sub(rhs.data[1][2]);
        self.data[2][0] = self.data[2][0].sub(rhs.data[2][0]);
        self.data[2][1] = self.data[2][1].sub(rhs.data[2][1]);
        self.data[2][2] = self.data[2][2].sub(rhs.data[2][2]);
        proof {
            Self::lemma_same_entries(*self, old(self).minus(rhs));
        }
    }
}

/// The matrix product.
impl<T: Vectorable> core::ops::Mul<Mat33<T>> for Mat33<T> {
    type Output = Mat33<T>;

    fn mul(self, rhs: Mat33<T>) -> (r: Mat33<T>)
        ensures
            r == self.times(rhs),
    {
        let m00 = self.data[0][0].mul(rhs.data[0][0])
            .add(self.data[1][0].mul(rhs.data[0][1]))
            .add(self.data[2][0].mul(rhs.data[0][2]));
        let m01 = self.data[0][1].mul(rhs.data[0][0])
            .add(self.data[1][1].mul(rhs.data[0][1]))
            .add(self.data[2][1].mul(rhs.data[0][2]));
        let m02 = self.data[0][2].mul(rhs.data[0][0])
            .add(self.data[1][2].mul(rhs.data[0][1]))
            .add(self.data[2][2].mul(rhs.data[0][2]));
        let m10 = self.data[0][0].mul(rhs.data[1][0])
            .add(self.data[1][0].mul(rhs.data[1][1]))
            .add(self.data[2][0].mul(rhs.data[1][2]));
        let m11 = self.data[0][1].mul(rhs.data[1][0])
            .add(self.data[1][1].mul(rhs.data[1][1]))
            .add(self.data[2][1].mul(rhs.data[1][2]));
        let m12 = self.data[0][2].mul(rhs.data[1][0])
            .add(self.data[1][2].mul(rhs.data[1][1]))
            .add(self.data[2][2].mul(rhs.data[1][2]));
        let m20 = self.data[0][0].mul(rhs.data[2][0])
            .add(self.data[1][0].mul(rhs.data[2][1]))
            .add(self.data[2][0].mul(rhs.data[2][2]));
        let m21 = self.data[0][1].mul(rhs.data[2][0])
            .add(self.data[1][1].mul(rhs.data[2][1]))
            .add(self.data[2][1].mul(rhs.data[2][2]));
        let m22 = self.data[0][2].mul(rhs.data[2][0])
            .add(self.data[1][2].mul(rhs.data[2][1]))
            .add(self.data[2][2].mul(rhs.data[2][2]));

        Mat33 {
            data: [
                [m00, m01, m02],
                [m10, m11, m12],
                [m20, m21, m22],
            ],
        }
    }
}

impl<T: Vectorable> vstd::std_specs::ops::MulSpecImpl<Mat33<T>> for Mat33<T> {
    open spec fn obeys_mul_spec() -> bool {
        true
    }

    open spec fn mul_req(self, rhs: Mat33<T>) -> bool {
        true
    }

    open spec fn mul_spec(self, rhs: Mat33<T>) -> Mat33<T> {
        self.times(rhs)
    }
}

impl<T: Vectorable> core::ops::MulAssign<Mat33<T>> for Mat33<T> {
    fn mul_assign(&mut self, rhs: Mat33<T>)
        ensures
            *final(self) == old(self).times(rhs),
    {
        let m00 = self.data[0][0].mul(rhs.data[0][0])
            .add(self.data[1][0].mul(rhs.data[0][1]))
            .add(self.data[2][0].mul(rhs.data[0][2]));
        let m01 = self.data[0][1].mul(rhs.data[0][0])
            .add(self.data[1][1].mul(rhs.data[0][1]))
            .add(self.data[2][1].mul(rhs.data[0][2]));
        let m02 = self.data[0][2].mul(rhs.data[0][0])
            .add(self.data[1][2].mul(rhs.data[0][1]))
            .add(self.data[2][2].mul(rhs.data[0][2]));
        let m10 = self.data[0][0].mul(rhs.data[1][0])
            .add(self.data[1][0].mul(rhs.data[1][1]))
            .add(self.data[2][0].mul(rhs.data[1][2]));
        let m11 = self.data[0][1].mul(rhs.data[1][0])
            .add(self.data[1][1].mul(rhs.data[1][1]))
            .add(self.data[2][1].mul(rhs.data[1][2]));
        let m12 = self.data[0][2].mul(rhs.data[1][0])
            .add(self.data[1][2].mul(rhs.data[1][1]))
            .add(self.data[2][2].mul(rhs.data[1][2]));
        let m20 = self.data[0][0].mul(rhs.data[2][0])
            .add(self.data[1][0].mul(rhs.data[2][1]))
            .add(self.data[2][0].mul(rhs.data[2][2]));
        let m21 = self.data[0][1].mul(rhs.data[2][0])
            .add(self.data[1][1].mul(rhs.data[2][1]))
            .add(self.data[2][1].mul(rhs.data[2][2]));
        let m22 = self.data[0][2].mul(rhs.data[2][0])
            .add(self.data[1][2].mul(rhs.data[2][1]))
            .add(self.data[2][2].mul(rhs.data[2][2]));

        self.data[0][0] = m00;
        self.data[0][1] = m01;
        self.data[0][2] = m02;
        self.data[1][0] = m10;
        self.data[1][1] = m11;
        self.data[1][2] = m12;
        self.data[2][0] = m20;
        self.data[2][1] = m21;
        self.data[2][2] = m22;
        proof {
            Self::lemma_same_entries(*self, old(self).times(rhs));
        }
    }
}

/// The matrix applied to a column vector.
impl<T: Vectorable> core::ops::Mul<Vec3<T>> for Mat33<T> {
    type Output = Vec3<T>;

    fn mul(self, rhs: Vec3<T>) -> (r: Vec3<T>)
        ensures
            r == self.applied_to(rhs),
    {
        let x = self.data[0][0].mul(rhs.x)
            .add(self.data[1][0].mul(rhs.y))
            .add(self.data[2][0].mul(rhs.z));
        let y = self.data[0][1].mul(rhs.x)
            .add(self.data[1][1].mul(rhs.y))
            .add(self.data[2][1].mul(rhs.z));
        let z = self.data[0][2].mul(rhs.x)
            .add(self.data[1][2].mul(rhs.y))
            .add(self.data[2][2].mul(rhs.z));

        Vec3 { x, y, z }
    }
}

impl<T: Vectorable> vstd::std_specs::ops::MulSpecImpl<Vec3<T>> for Mat33<T> {
    open spec fn obeys_mul_spec() -> bool {
        true
    }

    open spec fn mul_req(self, rhs: Vec3<T>) -> bool {
        true
    }

    open spec fn mul_spec(self, rhs: Vec3<T>) -> Vec3<T> {
        self.applied_to(rhs)
    }
}

impl<T: Vectorable> StandardMat<T> for Mat33<T> {
    open spec fn transposed_spec(self) -> Mat33<T> {
        Self::build(|c: int, r: int| self.at(r, c))
    }

    /// The expansion along column 0.
    open spec fn det_spec(self) -> T {
        det33_spec(
            self.at(0, 0),
            self.at(0, 1),
            self.at(0, 2),
            self.at(1, 0),
            self.at(1, 1),
            self.at(1, 2),
            self.at(2, 0),
            self.at(2, 1),
            self.at(2, 2),
        )
    }

    open spec fn inverted_spec(self) -> Mat33<T> {
        if self.det_spec().eq_spec(T::zero_spec()) {
            self
        } else {
            self.adjugate_over_det()
        }
    }

    fn transpose(&mut self) {
        let m00 = self.data[0][0];
        let m01 = self.data[1][0];
        let m02 = self.data[2][0];
        let m10 = self.data[0][1];
        let m11 = self.data[1][1];
        let m12 = self.data[2][1];
        let m20 = self.data[0][2];
        let m21 = self.data[1][2];
        let m22 = self.data[2][2];

        self.data[0][0] = m00;
        self.data[0][1] = m01;
        self.data[0][2] = m02;
        self.data[1][0] = m10;
        self.data[1][1] = m11;
        self.data[1][2] = m12;
        self.data[2][0] = m20;
        self.data[2][1] = m21;
        self.data[2][2] = m22;
        proof {
            Self::lemma_same_entries(*self, old(self).transposed_spec());
        }
    }

    fn invert(&mut self) {
        let determinant = self.det();

        if !determinant.eq(T::zero()) {
            let determinant_inv = T::one().div(determinant);

            let t00 = self.data[1][1].mul(self.data[2][2])
                .sub(self.data[1][2].mul(self.data[2][1]));
            let t01 = self.data[1][0].neg().mul(self.data[2][2])
                .add(self.data[1][2].mul(self.data[2][0]));
            let t02 = self.data[1][0].mul(self.data[2][1])
                .sub(self.data[1][1].mul(self.data[2][0]));
            let t10 = self.data[0][1].neg().mul(self.data[2][2])
                .add(self.data[0][2].mul(self.data[2][1]));
            let t11 = self.data[0][0].mul(self.data[2][2])
                .sub(self.data[0][2].mul(self.data[2][0]));
            let t12 = self.data[0][0].neg().mul(self.data[2][1])
                .add(self.data[0][1].mul(self.data[2][0]));
            let t20 = self.data[0][1].mul(self.data[1][2])
                .sub(self.data[0][2].mul(self.data[1][1]));
            let t21 = self.data[0][0].neg().mul(self.data[1][2])
                .add(self.data[0][2].mul(self.data[1][0]));
            let t22 = self.data[0][0].mul(self.data[1][1])
                .sub(self.data[0][1].mul(self.data[1][0]));

            // The adjugate is the transpose of the cofactors.
            self.data[0][0] = t00.mul(determinant_inv);
            self.data[1][0] = t01.mul(determinant_inv);
            self.data[2][0] = t02.mul(determinant_inv);
            self.data[0][1] = t10.mul(determinant_inv);
            self.data[1][1] = t11.mul(determinant_inv);
            self.data[2][1] = t12.mul(determinant_inv);
            self.data[0][2] = t20.mul(determinant_inv);
            self.data[1][2] = t21.mul(determinant_inv);
            self.data[2][2] = t22.mul(determinant_inv);
            proof {
                Self::lemma_same_entries(*self, old(self).adjugate_over_det());
            }
        }
    }

    fn det(&self) -> (d: T) {
        self.data[0][0].mul(
            self.data[1][1].mul(self.data[2][2]).sub(self.data[1][2].mul(self.data[2][1])),
        ).add(
            self.data[0][1].mul(
                self.data[1][2].mul(self.data[2][0]).sub(self.data[1][0].mul(self.data[2][2])),
            ),
        ).add(
            self.data[0][2].mul(
                self.data[1][0].mul(self.data[2][1]).sub(self.data[1][1].mul(self.data[2][0])),
            ),
        )
    }
}

} // verus!
