//! Vectors of two components.

use core::cmp::Ordering;
use crate::glmath::length_spec;
use crate::glmath::normalized_spec;
use crate::glmath::StandardVec;
use crate::glmath::TwoDimSwizzle;
use crate::glmath::vectorable::dot2;
use crate::glmath::vectorable::Vectorable;
use vstd::prelude::*;

verus! {

/// A vector of two scalars.
#[derive(Debug, Copy)]
pub struct Vec2<T: Vectorable> {
    pub x: T,
    pub y: T,
}

impl<T: Vectorable> Clone for Vec2<T> {
    fn clone(&self) -> (r: Self)
        ensures
            r == *self,
    {
        *self
    }
}

/// The zero vector.
impl<T: Vectorable> Default for Vec2<T> {
    fn default() -> (r: Self)
        ensures
            r == Self::zero_spec(),
    {
        Self::zero()
    }
}

impl<T: Vectorable> Vec2<T> {
    /// The vector whose components are all zero.
    pub open spec fn zero_spec() -> Vec2<T> {
        Vec2 { x: T::zero_spec(), y: T::zero_spec() }
    }

    /// The unit vector along the first axis.
    pub open spec fn unit_x_spec() -> Vec2<T> {
        Vec2 { x: T::one_spec(), y: T::zero_spec() }
    }

    /// The unit vector along the second axis.
    pub open spec fn unit_y_spec() -> Vec2<T> {
        Vec2 { x: T::zero_spec(), y: T::one_spec() }
    }

    /// Component `i`, counted from zero.
    pub open spec fn component(self, i: int) -> T {
        if i == 0 {
            self.x
        } else {
            self.y
        }
    }

    /// Every component negated.
    pub open spec fn negated(self) -> Vec2<T> {
        Vec2 { x: self.x.neg_spec(), y: self.y.neg_spec() }
    }

    /// The component-wise sum.
    pub open spec fn plus(self, rhs: Vec2<T>) -> Vec2<T> {
        Vec2 { x: self.x.add_spec(rhs.x), y: self.y.add_spec(rhs.y) }
    }

    /// The component-wise difference.
    pub open spec fn minus(self, rhs: Vec2<T>) -> Vec2<T> {
        Vec2 { x: self.x.sub_spec(rhs.x), y: self.y.sub_spec(rhs.y) }
    }

    /// Every component multiplied by `k`.
    pub open spec fn scaled_by(self, k: T) -> Vec2<T> {
        Vec2 { x: self.x.mul_spec(k), y: self.y.mul_spec(k) }
    }

    /// Normalizing the zero vector leaves it as it is, wherever zero times
    /// zero and zero plus zero are zero and the square root of zero compares
    /// equal to zero.
    pub proof fn lemma_zero_is_its_own_normalization()
        requires
            T::zero_spec().mul_spec(T::zero_spec()) == T::zero_spec(),
            T::zero_spec().add_spec(T::zero_spec()) == T::zero_spec(),
            T::zero_spec().sqrt_spec().eq_spec(T::zero_spec()),
        ensures
            normalized_spec(Self::zero_spec()) == Self::zero_spec(),
    {
    }

    /// The vector with the given components.
    pub fn new(x: T, y: T) -> (v: Vec2<T>)
        ensures
            v == (Vec2 { x, y }),
    {
        Vec2 { x, y }
    }

    /// The vector whose components are all zero.
    pub fn zero() -> (v: Vec2<T>)
        ensures
            v == Self::zero_spec(),
    {
        Vec2 { x: T::zero(), y: T::zero() }
    }

    /// The unit vector along the first axis.
    pub fn unit_x() -> (v: Vec2<T>)
        ensures
            v == Self::unit_x_spec(),
    {
        Vec2 { x: T::one(), y: T::zero() }
    }

    /// The unit vector along the second axis.
    pub fn unit_y() -> (v: Vec2<T>)
        ensures
            v == Self::unit_y_spec(),
    {
        Vec2 { x: T::zero(), y: T::one() }
    }
}

impl<T: Vectorable> StandardVec<T> for Vec2<T> {
    open spec fn length_sq_spec(self) -> T {
        dot2(self.x, self.x, self.y, self.y)
    }

    open spec fn dot_spec(self, other: Vec2<T>) -> T {
        dot2(self.x, other.x, self.y, other.y)
    }

    open spec fn divided_by_spec(self, k: T) -> Vec2<T> {
        Vec2 { x: self.x.div_spec(k), y: self.y.div_spec(k) }
    }

    fn length_sq(&self) -> (r: T) {
        self.x.mul(self.x).add(self.y.mul(self.y))
    }

    fn dot(&self, other: &Vec2<T>) -> (r: T) {
        self.x.mul(other.x).add(self.y.mul(other.y))
    }

    fn divided_by(&self, k: T) -> (r: Vec2<T>) {
        Vec2 { x: self.x.div(k), y: self.y.div(k) }
    }
}

/// Two vectors are equal where their lengths compare equal: direction plays
/// no part.
impl<T: Vectorable> PartialEq for Vec2<T> {
    fn eq(&self, other: &Self) -> (r: bool) {
        self.length().eq(other.length())
    }
}

impl<T: Vectorable> vstd::std_specs::cmp::PartialEqSpecImpl for Vec2<T> {
    open spec fn obeys_eq_spec() -> bool {
        true
    }

    open spec fn eq_spec(&self, other: &Self) -> bool {
        length_spec(*self).eq_spec(length_spec(*other))
    }
}

/// Vectors are ordered by their lengths. Two lengths of which neither is
/// below or equal to the other are unordered.
impl<T: Vectorable> PartialOrd for Vec2<T> {
    fn partial_cmp(&self, other: &Self) -> (r: Option<Ordering>) {
        let len = self.length();
        let other_len = other.length();
        match (len.le(other_len), other_len.le(len)) {
            (false, false) => None,
            (false, true) => Some(Ordering::Greater),
            (true, false) => Some(Ordering::Less),
            (true, true) => Some(Ordering::Equal),
        }
    }
}

impl<T: Vectorable> vstd::std_specs::cmp::PartialOrdSpecImpl for Vec2<T> {
    open spec fn obeys_partial_cmp_spec() -> bool {
        true
    }

    open spec fn partial_cmp_spec(&self, other: &Self) -> Option<Ordering> {
        let len = length_spec(*self);
        let other_len = length_spec(*other);
        match (len.le_spec(other_len), other_len.le_spec(len)) {
            (false, false) => None,
            (false, true) => Some(Ordering::Greater),
            (true, false) => Some(Ordering::Less),
            (true, true) => Some(Ordering::Equal),
        }
    }
}

impl<T: Vectorable> core::ops::Neg for Vec2<T> {
    type Output = Vec2<T>;

    fn neg(self) -> (r: Vec2<T>)
        ensures
            r == self.negated(),
    {
        Vec2 { x: self.x.neg(), y: self.y.neg() }
    }
}

impl<T: Vectorable> vstd::std_specs::ops::NegSpecImpl for Vec2<T> {
    open spec fn obeys_neg_spec() -> bool {
        true
    }

    open spec fn neg_req(self) -> bool {
        true
    }

    open spec fn neg_spec(self) -> Vec2<T> {
        self.negated()
    }
}

impl<T: Vectorable> core::ops::Add<Vec2<T>> for Vec2<T> {
    type Output = Vec2<T>;

    fn add(self, rhs: Vec2<T>) -> (r: Vec2<T>)
        ensures
            r == self.plus(rhs),
    {
        Vec2 { x: self.x.add(rhs.x), y: self.y.add(rhs.y) }
    }
}

impl<T: Vectorable> vstd::std_specs::ops::AddSpecImpl<Vec2<T>> for Vec2<T> {
    open spec fn obeys_add_spec() -> bool {
        true
    }

    open spec fn add_req(self, rhs: Vec2<T>) -> bool {
        true
    }

    open spec fn add_spec(self, rhs: Vec2<T>) -> Vec2<T> {
        self.plus(rhs)
    }
}

impl<T: Vectorable> core::ops::AddAssign<Vec2<T>> for Vec2<T> {
    fn add_assign(&mut self, rhs: Vec2<T>)
        ensures
            *final(self) == old(self).plus(rhs),
    {
        self.x = self.x.add(rhs.x);
        self.y = self.y.add(rhs.y);
    }
}

impl<T: Vectorable> core::ops::Sub<Vec2<T>> for Vec2<T> {
    type Output = Vec2<T>;

    fn sub(self, rhs: Vec2<T>) -> (r: Vec2<T>)
        ensures
            r == self.minus(rhs),
    {
        Vec2 { x: self.x.sub(rhs.x), y: self.y.sub(rhs.y) }
    }
}

impl<T: Vectorable> vstd::std_specs::ops::SubSpecImpl<Vec2<T>> for Vec2<T> {
    open spec fn obeys_sub_spec() -> bool {
        true
    }

    open spec fn sub_req(self, rhs: Vec2<T>) -> bool {
        true
    }

    open spec fn sub_spec(self, rhs: Vec2<T>) -> Vec2<T> {
        self.minus(rhs)
    }
}

impl<T: Vectorable> core::ops::SubAssign<Vec2<T>> for Vec2<T> {
    fn sub_assign(&mut self, rhs: Vec2<T>)
        ensures
            *final(self) == old(self).minus(rhs),
    {
        self.x = self.x.sub(rhs.x);
        self.y = self.y.sub(rhs.y);
    }
}

/// Scaling by a scalar.
impl<T: Vectorable> core::ops::Mul<T> for Vec2<T> {
    type Output = Vec2<T>;

    fn mul(self, rhs: T) -> (r: Vec2<T>)
        ensures
            r == self.scaled_by(rhs),
    {
        Vec2 { x: self.x.mul(rhs), y: self.y.mul(rhs) }
    }
}

impl<T: Vectorable> vstd::std_specs::ops::MulSpecImpl<T> for Vec2<T> {
    open spec fn obeys_mul_spec() -> bool {
        true
    }

    open spec fn mul_req(self, rhs: T) -> bool {
        true
    }

    open spec fn mul_spec(self, rhs: T) -> Vec2<T> {
        self.scaled_by(rhs)
    }
}

impl<T: Vectorable> core::ops::MulAssign<T> for Vec2<T> {
    fn mul_assign(&mut self, rhs: T)
        ensures
            *final(self) == old(self).scaled_by(rhs),
    {
        self.x = self.x.mul(rhs);
        self.y = self.y.mul(rhs);
    }
}

/// Division by a scalar.
impl<T: Vectorable> core::ops::Div<T> for Vec2<T> {
    type Output = Vec2<T>;

    fn div(self, rhs: T) -> (r: Vec2<T>)
        ensures
            r == self.divided_by_spec(rhs),
    {
        self.divided_by(rhs)
    }
}

impl<T: Vectorable> vstd::std_specs::ops::DivSpecImpl<T> for Vec2<T> {
    open spec fn obeys_div_spec() -> bool {
        true
    }

    open spec fn div_req(self, rhs: T) -> bool {
        true
    }

    open spec fn div_spec(self, rhs: T) -> Vec2<T> {
        self.divided_by_spec(rhs)
    }
}

impl<T: Vectorable> core::ops::DivAssign<T> for Vec2<T> {
    fn div_assign(&mut self, rhs: T)
        ensures
            *final(self) == old(self).divided_by_spec(rhs),
    {
        self.x = self.x.div(rhs);
        self.y = self.y.div(rhs);
    }
}

/// The dot product.
impl<T: Vectorable> core::ops::Mul<Vec2<T>> for Vec2<T> {
    type Output = T;

    fn mul(self, rhs: Vec2<T>) -> (r: T)
        ensures
            r == self.dot_spec(rhs),
    {
        self.dot(&rhs)
    }
}

impl<T: Vectorable> vstd::std_specs::ops::MulSpecImpl<Vec2<T>> for Vec2<T> {
    open spec fn obeys_mul_spec() -> bool {
        true
    }

    open spec fn mul_req(self, rhs: Vec2<T>) -> bool {
        true
    }

    open spec fn mul_spec(self, rhs: Vec2<T>) -> T {
        self.dot_spec(rhs)
    }
}

impl<T: Vectorable> TwoDimSwizzle<T> for Vec2<T> {
    open spec fn x_spec(&self) -> T {
        self.x
    }

    open spec fn y_spec(&self) -> T {
        self.y
    }

    fn x(&self) -> (r: &T) {
        &self.x
    }

    fn y(&self) -> (r: &T) {
        &self.y
    }

    fn xy(&self) -> (r: Vec2<T>) {
        *self
    }

    fn yx(&self) -> (r: Vec2<T>) {
        Vec2 { x: self.y, y: self.x }
    }
}

} // verus!
