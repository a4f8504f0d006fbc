//! The scalar that everything else is built from, and the short formulas over
//! scalars that the contracts of the other modules are written in.

use vstd::prelude::*;

verus! {

/// The scalar that vectors, matrices and quaternions are built from.
///
/// Each executable operation is paired with a specification function of the
/// same arguments, and must return exactly what that function names. An
/// implementation therefore has to compute every operation as a function of
/// its arguments alone. Nothing else is asked of it: no algebraic law is
/// assumed, so rounding arithmetic qualifies, and every contract in this crate
/// spells out the order of evaluation.
///
/// Verus holds a verified implementation to these contracts. An implementation
/// in unverified code is trusted to keep them: there the specification
/// functions are ordinary methods that nothing calls, written as the operations
/// themselves.
pub trait Vectorable: Copy + Sized {
    /// The additive identity.
    spec fn zero_spec() -> Self;

    /// The multiplicative identity.
    spec fn one_spec() -> Self;

    /// The scalar two.
    spec fn two_spec() -> Self;

    /// The scalar one half.
    spec fn half_spec() -> Self;

    /// The scalar one quarter.
    spec fn quarter_spec() -> Self;

    /// The half turn, in radians.
    spec fn pi_spec() -> Self;

    /// The sum `self + rhs`.
    spec fn add_spec(self, rhs: Self) -> Self;

    /// The difference `self - rhs`.
    spec fn sub_spec(self, rhs: Self) -> Self;

    /// The product `self * rhs`.
    spec fn mul_spec(self, rhs: Self) -> Self;

    /// The quotient `self / rhs`.
    spec fn div_spec(self, rhs: Self) -> Self;

    /// The negation `-self`.
    spec fn neg_spec(self) -> Self;

    /// Whether `self` compares equal to `rhs`. This is the scalar's own
    /// comparison: it need not coincide with identity of values.
    spec fn eq_spec(self, rhs: Self) -> bool;

    /// Whether `self` is strictly below `rhs`.
    spec fn lt_spec(self, rhs: Self) -> bool;

    /// Whether `self` is below or equal to `rhs`.
    spec fn le_spec(self, rhs: Self) -> bool;

    /// The square root.
    spec fn sqrt_spec(self) -> Self;

    /// The sine of an angle in radians.
    spec fn sin_spec(self) -> Self;

    /// The cosine of an angle in radians.
    spec fn cos_spec(self) -> Self;

    /// The arc sine, in radians.
    spec fn asin_spec(self) -> Self;

    /// The arc cosine, in radians.
    spec fn acos_spec(self) -> Self;

    /// The angle of the point `(b, a)` against the positive first axis, in
    /// radians: the two-argument arc tangent of `a / b`.
    spec fn atan2_spec(a: Self, b: Self) -> Self;

    fn zero() -> (r: Self)
        ensures
            r == Self::zero_spec(),
    ;

    fn one() -> (r: Self)
        ensures
            r == Self::one_spec(),
    ;

    fn two() -> (r: Self)
        ensures
            r == Self::two_spec(),
    ;

    fn half() -> (r: Self)
        ensures
            r == Self::half_spec(),
    ;

    fn quarter() -> (r: Self)
        ensures
            r == Self::quarter_spec(),
    ;

    fn pi() -> (r: Self)
        ensures
            r == Self::pi_spec(),
    ;

    fn add(self, rhs: Self) -> (r: Self)
        ensures
            r == self.add_spec(rhs),
    ;

    fn sub(self, rhs: Self) -> (r: Self)
        ensures
            r == self.sub_spec(rhs),
    ;

    fn mul(self, rhs: Self) -> (r: Self)
        ensures
            r == self.mul_spec(rhs),
    ;

    fn div(self, rhs: Self) -> (r: Self)
        ensures
            r == self.div_spec(rhs),
    ;

    fn neg(self) -> (r: Self)
        ensures
            r == self.neg_spec(),
    ;

    fn eq(self, rhs: Self) -> (r: bool)
        ensures
            r == self.eq_spec(rhs),
    ;

    fn lt(self, rhs: Self) -> (r: bool)
        ensures
            r == self.lt_spec(rhs),
    ;

    fn le(self, rhs: Self) -> (r: bool)
        ensures
            r == self.le_spec(rhs),
    ;

    fn sqrt(&self) -> (r: Self)
        ensures
            r == self.sqrt_spec(),
    ;

    fn sin(&self) -> (r: Self)
        ensures
            r == self.sin_spec(),
    ;

    fn cos(&self) -> (r: Self)
        ensures
            r == self.cos_spec(),
    ;

    fn asin(&self) -> (r: Self)
        ensures
            r == self.asin_spec(),
    ;

    fn acos(&self) -> (r: Self)
        ensures
            r == self.acos_spec(),
    ;

    fn atan2(a: Self, b: Self) -> (r: Self)
        ensures
            r == Self::atan2_spec(a, b),
    ;

    /// The larger of two scalars: `a` where `b` is strictly below it, else `b`.
    fn max(a: Self, b: Self) -> (r: Self)
        ensures
            r == (if b.lt_spec(a) {
                a
            } else {
                b
            }),
    {
        if b.lt(a) {
            a
        } else {
            b
        }
    }
}

/// The larger of two scalars, as [`Vectorable::max`] picks it.
pub open spec fn max_spec<T: Vectorable>(a: T, b: T) -> T {
    if b.lt_spec(a) {
        a
    } else {
        b
    }
}

/// Whether `x` behaves towards zero and one as a number does: one times `x`
/// and `x` plus zero are `x`, zero times `x` is zero, each from either side.
///
/// No scalar is bound to this. Among floats it fails for an infinite `x`,
/// whose product with zero is not zero.
pub open spec fn keeps_identities<T: Vectorable>(x: T) -> bool {
    &&& T::one_spec().mul_spec(x) == x
    &&& x.mul_spec(T::one_spec()) == x
    &&& T::zero_spec().mul_spec(x) == T::zero_spec()
    &&& x.mul_spec(T::zero_spec()) == T::zero_spec()
    &&& T::zero_spec().add_spec(x) == x
    &&& x.add_spec(T::zero_spec()) == x
}

/// `a0 * b0 + a1 * b1`, evaluated left to right.
pub open spec fn dot2<T: Vectorable>(a0: T, b0: T, a1: T, b1: T) -> T {
    a0.mul_spec(b0).add_spec(a1.mul_spec(b1))
}

/// `a0 * b0 + a1 * b1 + a2 * b2`, evaluated left to right.
pub open spec fn dot3<T: Vectorable>(a0: T, b0: T, a1: T, b1: T, a2: T, b2: T) -> T {
    dot2(a0, b0, a1, b1).add_spec(a2.mul_spec(b2))
}

/// `a0 * b0 + a1 * b1 + a2 * b2 + a3 * b3`, evaluated left to right.
pub open spec fn dot4<T: Vectorable>(
    a0: T,
    b0: T,
    a1: T,
    b1: T,
    a2: T,
    b2: T,
    a3: T,
    b3: T,
) -> T {
    dot3(a0, b0, a1, b1, a2, b2).add_spec(a3.mul_spec(b3))
}

/// The determinant of a matrix of three rows and three columns, given by its
/// nine entries row after row and expanded along the first row:
/// `t00 (t11 t22 - t12 t21) + t01 (t12 t20 - t10 t22) + t02 (t10 t21 - t11 t20)`.
pub open spec fn det33_spec<T: Vectorable>(
    t00: T,
    t01: T,
    t02: T,
    t10: T,
    t11: T,
    t12: T,
    t20: T,
    t21: T,
    t22: T,
) -> T {
    t00.mul_spec(t11.mul_spec(t22).sub_spec(t12.mul_spec(t21))).add_spec(
        t01.mul_spec(t12.mul_spec(t20).sub_spec(t10.mul_spec(t22))),
    ).add_spec(t02.mul_spec(t10.mul_spec(t21).sub_spec(t11.mul_spec(t20))))
}

/// The same determinant by the rule of Sarrus: the three products along the
/// falling diagonals added up, then the three along the rising diagonals taken
/// away one after the other:
/// `t00 t11 t22 + t01 t12 t20 + t02 t10 t21 - t02 t11 t20 - t00 t12 t21 - t01 t10 t22`.
pub open spec fn sarrus<T: Vectorable>(
    t00: T,
    t01: T,
    t02: T,
    t10: T,
    t11: T,
    t12: T,
    t20: T,
    t21: T,
    t22: T,
) -> T {
    t00.mul_spec(t11).mul_spec(t22).add_spec(t01.mul_spec(t12).mul_spec(t20)).add_spec(
        t02.mul_spec(t10).mul_spec(t21),
    ).sub_spec(t02.mul_spec(t11).mul_spec(t20)).sub_spec(t00.mul_spec(t12).mul_spec(t21)).sub_spec(
        t01.mul_spec(t10).mul_spec(t22),
    )
}

} // verus!
