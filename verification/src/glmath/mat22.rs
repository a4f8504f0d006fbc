//! Matrices of two columns and two rows.

use crate::glmath::vec2::Vec2;
use crate::glmath::vectorable::dot2;
use crate::glmath::vectorable::keeps_identities;
use crate::glmath::vectorable::Vectorable;
use crate::glmath::StandardMat;
use vstd::prelude::*;

verus! {

/// A square matrix of two columns and two rows, stored by columns: the
/// entry in column `c` and row `r` is `data[c][r]`, and `at(c, r)` in
/// contracts.
#[derive(Debug, Copy)]
pub struct Mat22<T: Vectorable> {
    data: [[T; 2]; 2],
}

impl<T: Vectorable> Clone for Mat22<T> {
    fn clone(&self) -> (r: Self)
        ensures
            r == *self,
    {
        *self
    }
}

/// The zero matrix.
impl<T: Vectorable> Default for Mat22<T> {
    fn default() -> (r: Self)
        ensures
            r == Self::zero_spec(),
    {
        Self::zero()
    }
}

impl<T: Vectorable> Mat22<T> {
    /// The entry in column `c` and row `r`.
    pub closed spec fn at(self, c: int, r: int) -> T {
        self.data[c][r]
    }

    /// The matrix whose entry in column `c` and row `r` is `f(c, r)`.
    pub closed spec fn build(f: spec_fn(int, int) -> T) -> Mat22<T> {
        Mat22 {
            data: [
                [f(0, 0), f(0, 1)],
                [f(1, 0), f(1, 1)],
            ],
        }
    }

    /// Column `c` as a vector.
    pub open spec fn column(self, c: int) -> Vec2<T> {
        Vec2 { x: self.at(c, 0), y: self.at(c, 1) }
    }

    /// Row `r` times the column vector `v`: the sum over the columns `k` of
    /// the entry in column `k` and row `r` times component `k` of `v`.
    pub open spec fn row_times(self, r: int, v: Vec2<T>) -> T {
        dot2(self.at(0, r), v.x, self.at(1, r), v.y)
    }

    /// Ones on the diagonal, zeros elsewhere.
    pub open spec fn identity_spec() -> Mat22<T> {
        Self::build(
            |c: int, r: int|
                if c == r {
                    T::one_spec()
                } else {
                    T::zero_spec()
                },
        )
    }

    /// Zeros everywhere.
    pub open spec fn zero_spec() -> Mat22<T> {
        Self::build(|c: int, r: int| T::zero_spec())
    }

    /// The matrix whose columns are the two vectors, in order.
    pub open spec fn from_axes_spec(x: Vec2<T>, y: Vec2<T>) -> Mat22<T> {
        Self::build(
            |c: int, r: int|
                if c == 0 {
                    x.component(r)
                } else {
                    y.component(r)
                },
        )
    }

    /// Every entry negated.
    pub open spec fn negated(self) -> Mat22<T> {
        Self::build(|c: int, r: int| self.at(c, r).neg_spec())
    }

    /// The entry-wise sum.
    pub open spec fn plus(self, rhs: Mat22<T>) -> Mat22<T> {
        Self::build(|c: int, r: int| self.at(c, r).add_spec(rhs.at(c, r)))
    }

    /// The entry-wise difference.
    pub open spec fn minus(self, rhs: Mat22<T>) -> Mat22<T> {
        Self::build(|c: int, r: int| self.at(c, r).sub_spec(rhs.at(c, r)))
    }

    /// The matrix product: the entry in column `c` and row `r` is row `r` of
    /// `self` times column `c` of `rhs`.
    pub open spec fn times(self, rhs: Mat22<T>) -> Mat22<T> {
        Self::build(|c: int, r: int| self.row_times(r, rhs.column(c)))
    }

    /// The matrix applied to a column vector.
    pub open spec fn applied_to(self, v: Vec2<T>) -> Vec2<T> {
        Vec2 { x: self.row_times(0, v), y: self.row_times(1, v) }
    }

    /// The adjugate, every entry multiplied by the reciprocal of the
    /// determinant: the entries of the diagonal change places, the other two
    /// are negated.
    pub open spec fn adjugate_over_det(self) -> Mat22<T> {
        let determinant_inv = T::one_spec().div_spec(self.det_spec());
        Self::build(
            |c: int, r: int|
                if c == r {
                    self.at(1 - c, 1 - r).mul_spec(determinant_inv)
                } else {
                    self.at(c, r).neg_spec().mul_spec(determinant_inv)
                },
        )
    }

    /// A built matrix holds `f(c, r)` in column `c` and row `r`.
    pub proof fn lemma_build_at(f: spec_fn(int, int) -> T, c: int, r: int)
        requires
            0 <= c < 2,
            0 <= r < 2,
        ensures
            Self::build(f).at(c, r) == f(c, r),
    {
    }

    /// Two matrices with the same entries are the same matrix.
    pub proof fn lemma_same_entries(a: Mat22<T>, b: Mat22<T>)
        requires
            forall|c: int, r: int| 0 <= c < 2 && 0 <= r < 2 ==> a.at(c, r) == b.at(c, r),
        ensures
            a == b,
    {
        assert forall|c: int| 0 <= c < 2 implies a.data[c] == b.data[c] by {
            assert(a.at(c, 0) == b.at(c, 0));
            assert(a.at(c, 1) == b.at(c, 1));
            assert(a.data[c] =~= b.data[c]);
        }
        assert(a.data =~= b.data);
    }

    /// The identity matrix is neutral: multiplied from either side onto a
    /// matrix whose entries keep the identities of the scalar, it gives that
    /// matrix back.
    pub proof fn lemma_identity_is_neutral(m: Mat22<T>)
        requires
            keeps_identities(T::zero_spec()),
            forall|c: int, r: int|
                0 <= c < 2 && 0 <= r < 2 ==> keeps_identities(#[trigger] m.at(c, r)),
        ensures
            Self::identity_spec().times(m) == m,
            m.times(Self::identity_spec()) == m,
    {
        let id = Self::identity_spec();
        assert forall|c: int, r: int| 0 <= c < 2 && 0 <= r < 2 implies id.times(m).at(c, r)
            == m.at(c, r) by {
            assert(keeps_identities(m.at(c, 0)));
            assert(keeps_identities(m.at(c, 1)));
        }
        assert forall|c: int, r: int| 0 <= c < 2 && 0 <= r < 2 implies m.times(id).at(c, r)
            == m.at(c, r) by {
            assert(keeps_identities(m.at(0, r)));
            assert(keeps_identities(m.at(1, r)));
        }
        Self::lemma_same_entries(id.times(m), m);
        Self::lemma_same_entries(m.times(id), m);
    }

    /// The identity matrix.
    pub fn new() -> (m: Mat22<T>)
        ensures
            m == Self::identity_spec(),
    {
        Self::identity()
    }

    /// Ones on the diagonal, zeros elsewhere.
    pub fn identity() -> (m: Mat22<T>)
        ensures
            m == Self::identity_spec(),
    {
        let o = T::one();
        let z = T::zero();
        Mat22 { data: [[o, z], [z, o]] }
    }

    /// Zeros everywhere.
    pub fn zero() -> (m: Mat22<T>)
        ensures
            m == Self::zero_spec(),
    {
        let z = T::zero();
        Mat22 { data: [[z, z], [z, z]] }
    }

    /// The entry in column `c` and row `r`.
    pub fn entry(&self, c: usize, r: usize) -> (e: T)
        requires
            c < 2,
            r < 2,
        ensures
            e == self.at(c as int, r as int),
    {
        self.data[c][r]
    }

    /// Builds a matrix from its two columns.
    pub fn from_axes(x: Vec2<T>, y: Vec2<T>) -> (m: Mat22<T>)
        ensures
            m == Self::from_axes_spec(x, y),
    {
        Mat22 {
            data: [
                [x.x, x.y],
                [y.x, y.y],
            ],
        }
    }
}

/// Two matrices are equal where all their entries compare equal.
impl<T: Vectorable> PartialEq for Mat22<T> {
    fn eq(&self, other: &Self) -> (r: bool) {
        let same = self.data[0][0].eq(other.data[0][0])
            && self.data[0][1].eq(other.data[0][1])
            && self.data[1][0].eq(other.data[1][0])
            && self.data[1][1].eq(other.data[1][1]);
        proof {
            if !same {
                assert(!self.at(0, 0).eq_spec(other.at(0, 0))
                    || !self.at(0, 1).eq_spec(other.at(0, 1))
                    || !self.at(1, 0).eq_spec(other.at(1, 0))
                    || !self.at(1, 1).eq_spec(other.at(1, 1))
                );
            }
        }
        same
    }
}

impl<T: Vectorable> vstd::std_specs::cmp::PartialEqSpecImpl for Mat22<T> {
    open spec fn obeys_eq_spec() -> bool {
        true
    }

    open spec fn eq_spec(&self, other: &Self) -> bool {
        forall|c: int, r: int|
            0 <= c < 2 && 0 <= r < 2 ==> (#[trigger] self.at(c, r)).eq_spec(other.at(c, r))
    }
}

impl<T: Vectorable> core::ops::Neg for Mat22<T> {
    type Output = Mat22<T>;

    fn neg(self) -> (r: Mat22<T>)
        ensures
            r == self.negated(),
    {
        Mat22 {
            data: [
                [self.data[0][0].neg(), self.data[0][1].neg()],
                [self.data[1][0].neg(), self.data[1][1].neg()],
            ],
        }
    }
}

impl<T: Vectorable> vstd::std_specs::ops::NegSpecImpl for Mat22<T> {
    open spec fn obeys_neg_spec() -> bool {
        true
    }

    open spec fn neg_req(self) -> bool {
        true
    }

    open spec fn neg_spec(self) -> Mat22<T> {
        self.negated()
    }
}

impl<T: Vectorable> core::ops::Add<Mat22<T>> for Mat22<T> {
    type Output = Mat22<T>;

    fn add(self, rhs: Mat22<T>) -> (r: Mat22<T>)
        ensures
            r == self.plus(rhs),
    {
        Mat22 {
            data: [
                [
                    self.data[0][0].add(rhs.data[0][0]),
                    self.data[0][1].add(rhs.data[0][1]),
                ],
                [
                    self.data[1][0].add(rhs.data[1][0]),
                    self.data[1][1].add(rhs.data[1][1]),
                ],
            ],
        }
    }
}

impl<T: Vectorable> vstd::std_specs::ops::AddSpecImpl<Mat22<T>> for Mat22<T> {
    open spec fn obeys_add_spec() -> bool {
        true
    }

    open spec fn add_req(self, rhs: Mat22<T>) -> bool {
        true
    }

    open spec fn add_spec(self, rhs: Mat22<T>) -> Mat22<T> {
        self.plus(rhs)
    }
}

impl<T: Vectorable> core::ops::AddAssign<Mat22<T>> for Mat22<T> {
    fn add_assign(&mut self, rhs: Mat22<T>)
        ensures
            *final(self) == old(self).plus(rhs),
    {
        self.data[0][0] = self.data[0][0].add(rhs.data[0][0]);
        self.data[0][1] = self.data[0][1].add(rhs.data[0][1]);
        self.data[1][0] = self.data[1][0].add(rhs.data[1][0]);
        self.data[1][1] = self.data[1][1].add(rhs.data[1][1]);
        proof {
            Self::lemma_same_entries(*self, old(self).plus(rhs));
        }
    }
}

impl<T: Vectorable> core::ops::Sub<Mat22<T>> for Mat22<T> {
    type Output = Mat22<T>;

    fn sub(self, rhs: Mat22<T>) -> (r: Mat22<T>)
        ensures
            r == self.minus(rhs),
    {
        Mat22 {
            data: [
                [
                    self.data[0][0].sub(rhs.data[0][0]),
                    self.data[0][1].sub(rhs.data[0][1]),
                ],
                [
                    self.data[1][0].sub(rhs.data[1][0]),
                    self.data[1][1].sub(rhs.data[1][1]),
                ],
            ],
        }
    }
}

impl<T: Vectorable> vstd::std_specs::ops::SubSpecImpl<Mat22<T>> for Mat22<T> {
    open spec fn obeys_sub_spec() -> bool {
        true
    }

    open spec fn sub_req(self, rhs: Mat22<T>) -> bool {
        true
    }

    open spec fn sub_spec(self, rhs: Mat22<T>) -> Mat22<T> {
        self.minus(rhs)
    }
}

impl<T: Vectorable> core::ops::SubAssign<Mat22<T>> for Mat22<T> {
    fn sub_assign(&mut self, rhs: Mat22<T>)
        ensures
            *final(self) == old(self).minus(rhs),
    {
        self.data[0][0] = self.data[0][0].sub(rhs.data[0][0]);
        self.data[0][1] = self.data[0][1].sub(rhs.data[0][1]);
        self.data[1][0] = self.data[1][0].sub(rhs.data[1][0]);
        self.data[1][1] = self.data[1][1].sub(rhs.data[1][1]);
        proof {
            Self::lemma_same_entries(*self, old(self).minus(rhs));
        }
    }
}

/// The matrix product.
impl<T: Vectorable> core::ops::Mul<Mat22<T>> for Mat22<T> {
    type Output = Mat22<T>;

    fn mul(self, rhs: Mat22<T>) -> (r: Mat22<T>)
        ensures
            r == self.times(rhs),
    {
        let m00 = self.data[0][0].mul(rhs.data[0][0]).add(self.data[1][0].mul(rhs.data[0][1]));
        let m01 = self.data[0][1].mul(rhs.data[0][0]).add(self.data[1][1].mul(rhs.data[0][1]));
        let m10 = self.data[0][0].mul(rhs.data[1][0]).add(self.data[1][0].mul(rhs.data[1][1]));
        let m11 = self.data[0][1].mul(rhs.data[1][0]).add(self.data[1][1].mul(rhs.data[1][1]));

        Mat22 {
            data: [
                [m00, m01],
                [m10, m11],
            ],
        }
    }
}

impl<T: Vectorable> vstd::std_specs::ops::MulSpecImpl<Mat22<T>> for Mat22<T> {
    open spec fn obeys_mul_spec() -> bool {
        true
    }

    open spec fn mul_req(self, rhs: Mat22<T>) -> bool {
        true
    }

    open spec fn mul_spec(self, rhs: Mat22<T>) -> Mat22<T> {
        self.times(rhs)
    }
}

impl<T: Vectorable> core::ops::MulAssign<Mat22<T>> for Mat22<T> {
    fn mul_assign(&mut self, rhs: Mat22<T>)
        ensures
            *final(self) == old(self).times(rhs),
    {
        let m00 = self.data[0][0].mul(rhs.data[0][0]).add(self.data[1][0].mul(rhs.data[0][1]));
        let m01 = self.data[0][1].mul(rhs.data[0][0]).add(self.data[1][1].mul(rhs.data[0][1]));
        let m10 = self.data[0][0].mul(rhs.data[1][0]).add(self.data[1][0].mul(rhs.data[1][1]));
        let m11 = self.data[0][1].mul(rhs.data[1][0]).add(self.data[1][1].mul(rhs.data[1][1]));

        self.data[0][0] = m00;
        self.data[0][1] = m01;
        self.data[1][0] = m10;
        self.data[1][1] = m11;
        proof {
            Self::lemma_same_entries(*self, old(self).times(rhs));
        }
    }
}

/// The matrix applied to a column vector.
impl<T: Vectorable> core::ops::Mul<Vec2<T>> for Mat22<T> {
    type Output = Vec2<T>;

    fn mul(self, rhs: Vec2<T>) -> (r: Vec2<T>)
        ensures
            r == self.applied_to(rhs),
    {
        let x = self.data[0][0].mul(rhs.x).add(self.data[1][0].mul(rhs.y));
        let y = self.data[0][1].mul(rhs.x).add(self.data[1][1].mul(rhs.y));

        Vec2 { x, y }
    }
}

impl<T: Vectorable> vstd::std_specs::ops::MulSpecImpl<Vec2<T>> for Mat22<T> {
    open spec fn obeys_mul_spec() -> bool {
        true
    }

    open spec fn mul_req(self, rhs: Vec2<T>) -> bool {
        true
    }

    open spec fn mul_spec(self, rhs: Vec2<T>) -> Vec2<T> {
        self.applied_to(rhs)
    }
}

impl<T: Vectorable> StandardMat<T> for Mat22<T> {
    open spec fn transposed_spec(self) -> Mat22<T> {
        Self::build(|c: int, r: int| self.at(r, c))
    }

    /// The product of the diagonal less the product of the other two entries.
    open spec fn det_spec(self) -> T {
        self.at(0, 0).mul_spec(self.at(1, 1)).sub_spec(self.at(0, 1).mul_spec(self.at(1, 0)))
    }

    open spec fn inverted_spec(self) -> Mat22<T> {
        if self.det_spec().eq_spec(T::zero_spec()) {
            self
        } else {
            self.adjugate_over_det()
        }
    }

    fn transpose(&mut self) {
        let m01 = self.data[1][0];
        let m10 = self.data[0][1];

        self.data[0][1] = m01;
        self.data[1][0] = m10;
        proof {
            Self::lemma_same_entries(*self, old(self).transposed_spec());
        }
    }

    fn invert(&mut self) {
        let determinant = self.det();

        if !determinant.eq(T::zero()) {
            let determinant_inv = T::one().div(determinant);

            let t00 = self.data[1][1].mul(determinant_inv);
            let t01 = self.data[0][1].neg().mul(determinant_inv);
            let t11 = self.data[0][0].mul(determinant_inv);
            let t10 = self.data[1][0].neg().mul(determinant_inv);

            self.data[0][0] = t00;
            self.data[0][1] = t01;
            self.data[1][0] = t10;
            self.data[1][1] = t11;
            proof {
                Self::lemma_same_entries(*self, old(self).adjugate_over_det());
            }
        }
    }

    fn det(&self) -> (d: T) {
        self.data[0][0].mul(self.data[1][1]).sub(self.data[0][1].mul(self.data[1][0]))
    }
}

} // verus!
