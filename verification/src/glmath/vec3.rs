//! Vectors of three components.

use core::cmp::Ordering;
use crate::glmath::length_spec;
use crate::glmath::normalized_spec;
use crate::glmath::StandardVec;
use crate::glmath::ThreeDimSwizzle;
use crate::glmath::TwoDimSwizzle;
use crate::glmath::vec2::Vec2;
use crate::glmath::vectorable::dot3;
use crate::glmath::vectorable::Vectorable;
use vstd::prelude::*;

verus! {

/// A vector of three scalars.
#[derive(Debug, Copy)]
pub struct Vec3<T: Vectorable> {
    pub x: T,
    pub y: T,
    pub z: T,
}

impl<T: Vectorable> Clone for Vec3<T> {
    fn clone(&self) -> (r: Self)
        ensures
            r == *self,
    {
        *self
    }
}

/// The zero vector.
impl<T: Vectorable> Default for Vec3<T> {
    fn default() -> (r: Self)
        ensures
            r == Self::zero_spec(),
    {
        Self::zero()
    }
}

impl<T: Vectorable> Vec3<T> {
    /// The vector whose components are all zero.
    pub open spec fn zero_spec() -> Vec3<T> {
        Vec3 { x: T::zero_spec(), y: T::zero_spec(), z: T::zero_spec() }
    }

    /// The unit vector along the first axis.
    pub open spec fn unit_x_spec() -> Vec3<T> {
        Vec3 { x: T::one_spec(), y: T::zero_spec(), z: T::zero_spec() }
    }

    /// The unit vector along the second axis.
    pub open spec fn unit_y_spec() -> Vec3<T> {
        Vec3 { x: T::zero_spec(), y: T::one_spec(), z: T::zero_spec() }
    }

    /// The unit vector along the third axis.
    pub open spec fn unit_z_spec() -> Vec3<T> {
        Vec3 { x: T::zero_spec(), y: T::zero_spec(), z: T::one_spec() }
    }

    /// Component `i`, counted from zero.
    pub open spec fn component(self, i: int) -> T {
        if i == 0 {
            self.x
        } else if i == 1 {
            self.y
        } else {
            self.z
        }
    }

    /// Every component negated.
    pub open spec fn negated(self) -> Vec3<T> {
        Vec3 { x: self.x.neg_spec(), y: self.y.neg_spec(), z: self.z.neg_spec() }
    }

    /// The component-wise sum.
    pub open spec fn plus(self, rhs: Vec3<T>) -> Vec3<T> {
        Vec3 {
            x: self.x.add_spec(rhs.x),
            y: self.y.add_spec(rhs.y),
            z: self.z.add_spec(rhs.z),
        }
    }

    /// The component-wise difference.
    pub open spec fn minus(self, rhs: Vec3<T>) -> Vec3<T> {
        Vec3 {
            x: self.x.sub_spec(rhs.x),
            y: self.y.sub_spec(rhs.y),
            z: self.z.sub_spec(rhs.z),
        }
    }

    /// Every component multiplied by `k`.
    pub open spec fn scaled_by(self, k: T) -> Vec3<T> {
        Vec3 { x: self.x.mul_spec(k), y: self.y.mul_spec(k), z: self.z.mul_spec(k) }
    }

    /// The cross product `(y1 z2 - z1 y2, z1 x2 - x1 z2, x1 y2 - y1 x2)`.
    pub open spec fn cross_spec(self, rhs: Vec3<T>) -> Vec3<T> {
        Vec3 {
            x: self.y.mul_spec(rhs.z).sub_spec(self.z.mul_spec(rhs.y)),
            y: self.z.mul_spec(rhs.x).sub_spec(self.x.mul_spec(rhs.z)),
            z: self.x.mul_spec(rhs.y).sub_spec(self.y.mul_spec(rhs.x)),
        }
    }

    /// Normalizing the zero vector leaves it as it is, wherever zero times
    /// zero and zero plus zero are zero and the square root of zero compares
    /// equal to zero.
    pub proof fn lemma_zero_is_its_own_normalization()
        requires
            T::zero_spec().mul_spec(T::zero_spec()) == T::zero_spec(),
            T::zero_spec().add_spec(T::zero_spec()) == T::zero_spec(),
            T::zero_spec().sqrt_spec().eq_spec(T::zero_spec()),
        ensures
            normalized_spec(Self::zero_spec()) == Self::zero_spec(),
    {
    }

    /// The cross product with the zero vector, from either side, is the zero
    /// vector, wherever zero times each component of `v` is zero, from
    /// either side, and zero less zero is zero.
    pub proof fn lemma_cross_with_zero(v: Vec3<T>)
        requires
            v.x.mul_spec(T::zero_spec()) == T::zero_spec(),
            v.y.mul_spec(T::zero_spec()) == T::zero_spec(),
            v.z.mul_spec(T::zero_spec()) == T::zero_spec(),
            T::zero_spec().mul_spec(v.x) == T::zero_spec(),
            T::zero_spec().mul_spec(v.y) == T::zero_spec(),
            T::zero_spec().mul_spec(v.z) == T::zero_spec(),
            T::zero_spec().sub_spec(T::zero_spec()) == T::zero_spec(),
        ensures
            v.cross_spec(Self::zero_spec()) == Self::zero_spec(),
            Self::zero_spec().cross_spec(v) == Self::zero_spec(),
    {
    }

    /// The vector with the given components.
    pub fn new(x: T, y: T, z: T) -> (v: Vec3<T>)
        ensures
            v == (Vec3 { x, y, z }),
    {
        Vec3 { x, y, z }
    }

    /// The vector whose components are all zero.
    pub fn zero() -> (v: Vec3<T>)
        ensures
            v == Self::zero_spec(),
    {
        Vec3 { x: T::zero(), y: T::zero(), z: T::zero() }
    }

    /// The unit vector along the first axis.
    pub fn unit_x() -> (v: Vec3<T>)
        ensures
            v == Self::unit_x_spec(),
    {
        Vec3 { x: T::one(), y: T::zero(), z: T::zero() }
    }

    /// The unit vector along the second axis.
    pub fn unit_y() -> (v: Vec3<T>)
        ensures
            v == Self::unit_y_spec(),
    {
        Vec3 { x: T::zero(), y: T::one(), z: T::zero() }
    }

    /// The unit vector along the third axis.
    pub fn unit_z() -> (v: Vec3<T>)
        ensures
            v == Self::unit_z_spec(),
    {
        Vec3 { x: T::zero(), y: T::zero(), z: T::one() }
    }
}

impl<T: Vectorable> StandardVec<T> for Vec3<T> {
    open spec fn length_sq_spec(self) -> T {
        dot3(self.x, self.x, self.y, self.y, self.z, self.z)
    }

    open spec fn dot_spec(self, other: Vec3<T>) -> T {
        dot3(self.x, other.x, self.y, other.y, self.z, other.z)
    }

    open spec fn divided_by_spec(self, k: T) -> Vec3<T> {
        Vec3 { x: self.x.div_spec(k), y: self.y.div_spec(k), z: self.z.div_spec(k) }
    }

    fn length_sq(&self) -> (r: T) {
        self.x.mul(self.x).add(self.y.mul(self.y)).add(self.z.mul(self.z))
    }

    fn dot(&self, other: &Vec3<T>) -> (r: T) {
        self.x.mul(other.x).add(self.y.mul(other.y)).add(self.z.mul(other.z))
    }

    fn divided_by(&self, k: T) -> (r: Vec3<T>) {
        Vec3 { x: self.x.div(k), y: self.y.div(k), z: self.z.div(k) }
    }
}

/// Two vectors are equal where their lengths compare equal: direction plays
/// no part.
impl<T: Vectorable> PartialEq for Vec3<T> {
    fn eq(&self, other: &Self) -> (r: bool) {
        self.length().eq(other.length())
    }
}

impl<T: Vectorable> vstd::std_specs::cmp::PartialEqSpecImpl for Vec3<T> {
    open spec fn obeys_eq_spec() -> bool {
        true
    }

    open spec fn eq_spec(&self, other: &Self) -> bool {
        length_spec(*self).eq_spec(length_spec(*other))
    }
}

/// Vectors are ordered by their lengths. Two lengths of which neither is
/// below or equal to the other are unordered.
impl<T: Vectorable> PartialOrd for Vec3<T> {
    fn partial_cmp(&self, other: &Self) -> (r: Option<Ordering>) {
        let len = self.length();
        let other_len = other.length();
        match (len.le(other_len), other_len.le(len)) {
            (false, false) => None,
            (false, true) => Some(Ordering::Greater),
            (true, false) => Some(Ordering::Less),
            (true, true) => Some(Ordering::Equal),
        }
    }
}

impl<T: Vectorable> vstd::std_specs::cmp::PartialOrdSpecImpl for Vec3<T> {
    open spec fn obeys_partial_cmp_spec() -> bool {
        true
    }

    open spec fn partial_cmp_spec(&self, other: &Self) -> Option<Ordering> {
        let len = length_spec(*self);
        let other_len = length_spec(*other);
        match (len.le_spec(other_len), other_len.le_spec(len)) {
            (false, false) => None,
            (false, true) => Some(Ordering::Greater),
            (true, false) => Some(Ordering::Less),
            (true, true) => Some(Ordering::Equal),
        }
    }
}

impl<T: Vectorable> core::ops::Neg for Vec3<T> {
    type Output = Vec3<T>;

    fn neg(self) -> (r: Vec3<T>)
        ensures
            r == self.negated(),
    {
        Vec3 { x: self.x.neg(), y: self.y.neg(), z: self.z.neg() }
    }
}

impl<T: Vectorable> vstd::std_specs::ops::NegSpecImpl for Vec3<T> {
    open spec fn obeys_neg_spec() -> bool {
        true
    }

    open spec fn neg_req(self) -> bool {
        true
    }

    open spec fn neg_spec(self) -> Vec3<T> {
        self.negated()
    }
}

impl<T: Vectorable> core::ops::Add<Vec3<T>> for Vec3<T> {
    type Output = Vec3<T>;

    fn add(self, rhs: Vec3<T>) -> (r: Vec3<T>)
        ensures
            r == self.plus(rhs),
    {
        Vec3 { x: self.x.add(rhs.x), y: self.y.add(rhs.y), z: self.z.add(rhs.z) }
    }
}

impl<T: Vectorable> vstd::std_specs::ops::AddSpecImpl<Vec3<T>> for Vec3<T> {
    open spec fn obeys_add_spec() -> bool {
        true
    }

    open spec fn add_req(self, rhs: Vec3<T>) -> bool {
        true
    }

    open spec fn add_spec(self, rhs: Vec3<T>) -> Vec3<T> {
        self.plus(rhs)
    }
}

impl<T: Vectorable> core::ops::AddAssign<Vec3<T>> for Vec3<T> {
    fn add_assign(&mut self, rhs: Vec3<T>)
        ensures
            *final(self) == old(self).plus(rhs),
    {
        self.x = self.x.add(rhs.x);
        self.y = self.y.add(rhs.y);
        self.z = self.z.add(rhs.z);
    }
}

impl<T: Vectorable> core::ops::Sub<Vec3<T>> for Vec3<T> {
    type Output = Vec3<T>;

    fn sub(self, rhs: Vec3<T>) -> (r: Vec3<T>)
        ensures
            r == self.minus(rhs),
    {
        Vec3 { x: self.x.sub(rhs.x), y: self.y.sub(rhs.y), z: self.z.sub(rhs.z) }
    }
}

impl<T: Vectorable> vstd::std_specs::ops::SubSpecImpl<Vec3<T>> for Vec3<T> {
    open spec fn obeys_sub_spec() -> bool {
        true
    }

    open spec fn sub_req(self, rhs: Vec3<T>) -> bool {
        true
    }

    open spec fn sub_spec(self, rhs: Vec3<T>) -> Vec3<T> {
        self.minus(rhs)
    }
}

impl<T: Vectorable> core::ops::SubAssign<Vec3<T>> for Vec3<T> {
    fn sub_assign(&mut self, rhs: Vec3<T>)
        ensures
            *final(self) == old(self).minus(rhs),
    {
        self.x = self.x.sub(rhs.x);
        self.y = self.y.sub(rhs.y);
        self.z = self.z.sub(rhs.z);
    }
}

/// Scaling by a scalar.
impl<T: Vectorable> core::ops::Mul<T> for Vec3<T> {
    type Output = Vec3<T>;

    fn mul(self, rhs: T) -> (r: Vec3<T>)
        ensures
            r == self.scaled_by(rhs),
    {
        Vec3 { x: self.x.mul(rhs), y: self.y.mul(rhs), z: self.z.mul(rhs) }
    }
}

impl<T: Vectorable> vstd::std_specs::ops::MulSpecImpl<T> for Vec3<T> {
    open spec fn obeys_mul_spec() -> bool {
        true
    }

    open spec fn mul_req(self, rhs: T) -> bool {
        true
    }

    open spec fn mul_spec(self, rhs: T) -> Vec3<T> {
        self.scaled_by(rhs)
    }
}

impl<T: Vectorable> core::ops::MulAssign<T> for Vec3<T> {
    fn mul_assign(&mut self, rhs: T)
        ensures
            *final(self) == old(self).scaled_by(rhs),
    {
        self.x = self.x.mul(rhs);
        self.y = self.y.mul(rhs);
        self.z = self.z.mul(rhs);
    }
}

/// Division by a scalar.
impl<T: Vectorable> core::ops::Div<T> for Vec3<T> {
    type Output = Vec3<T>;

    fn div(self, rhs: T) -> (r: Vec3<T>)
        ensures
            r == self.divided_by_spec(rhs),
    {
        self.divided_by(rhs)
    }
}

impl<T: Vectorable> vstd::std_specs::ops::DivSpecImpl<T> for Vec3<T> {
    open spec fn obeys_div_spec() -> bool {
        true
    }

    open spec fn div_req(self, rhs: T) -> bool {
        true
    }

    open spec fn div_spec(self, rhs: T) -> Vec3<T> {
        self.divided_by_spec(rhs)
    }
}

impl<T: Vectorable> core::ops::DivAssign<T> for Vec3<T> {
    fn div_assign(&mut self, rhs: T)
        ensures
            *final(self) == old(self).divided_by_spec(rhs),
    {
        self.x = self.x.div(rhs);
        self.y = self.y.div(rhs);
        self.z = self.z.div(rhs);
    }
}

/// The dot product.
impl<T: Vectorable> core::ops::Mul<Vec3<T>> for Vec3<T> {
    type Output = T;

    fn mul(self, rhs: Vec3<T>) -> (r: T)
        ensures
            r == self.dot_spec(rhs),
    {
        self.dot(&rhs)
    }
}

impl<T: Vectorable> vstd::std_specs::ops::MulSpecImpl<Vec3<T>> for Vec3<T> {
    open spec fn obeys_mul_spec() -> bool {
        true
    }

    open spec fn mul_req(self, rhs: Vec3<T>) -> bool {
        true
    }

    open spec fn mul_spec(self, rhs: Vec3<T>) -> T {
        self.dot_spec(rhs)
    }
}

/// The cross product.
impl<T: Vectorable> core::ops::Rem<Vec3<T>> for Vec3<T> {
    type Output = Vec3<T>;

    fn rem(self, rhs: Vec3<T>) -> (r: Vec3<T>)
        ensures
            r == self.cross_spec(rhs),
    {
        Vec3 {
            x: self.y.mul(rhs.z).sub(self.z.mul(rhs.y)),
            y: self.z.mul(rhs.x).sub(self.x.mul(rhs.z)),
            z: self.x.mul(rhs.y).sub(self.y.mul(rhs.x)),
        }
    }
}

impl<T: Vectorable> vstd::std_specs::ops::RemSpecImpl<Vec3<T>> for Vec3<T> {
    open spec fn obeys_rem_spec() -> bool {
        true
    }

    open spec fn rem_req(self, rhs: Vec3<T>) -> bool {
        true
    }

    open spec fn rem_spec(self, rhs: Vec3<T>) -> Vec3<T> {
        self.cross_spec(rhs)
    }
}

impl<T: Vectorable> TwoDimSwizzle<T> for Vec3<T> {
    open spec fn x_spec(&self) -> T {
        self.x
    }

    open spec fn y_spec(&self) -> T {
        self.y
    }

    fn x(&self) -> (r: &T) {
        &self.x
    }

    fn y(&self) -> (r: &T) {
        &self.y
    }

    fn xy(&self) -> (r: Vec2<T>) {
        Vec2 { x: self.x, y: self.y }
    }

    fn yx(&self) -> (r: Vec2<T>) {
        Vec2 { x: self.y, y: self.x }
    }
}

impl<T: Vectorable> ThreeDimSwizzle<T> for Vec3<T> {
    open spec fn z_spec(&self) -> T {
        self.z
    }

    fn z(&self) -> (r: &T) {
        &self.z
    }

    fn xyz(&self) -> (r: Vec3<T>) {
        *self
    }

    fn yxz(&self) -> (r: Vec3<T>) {
        Vec3 { x: self.y, y: self.x, z: self.z }
    }

    fn zxy(&self) -> (r: Vec3<T>) {
        Vec3 { x: self.z, y: self.x, z: self.y }
    }

    fn xzy(&self) -> (r: Vec3<T>) {
        Vec3 { x: self.x, y: self.z, z: self.y }
    }

    fn yzx(&self) -> (r: Vec3<T>) {
        Vec3 { x: self.y, y: self.z, z: self.x }
    }

    fn zyx(&self) -> (r: Vec3<T>) {
        Vec3 { x: self.z, y: self.y, z: self.x }
    }
}

} // verus!
