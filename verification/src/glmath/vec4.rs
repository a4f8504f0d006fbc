//! Vectors of four components.

use core::cmp::Ordering;
use crate::glmath::FourDimSwizzle;
use crate::glmath::length_spec;
use crate::glmath::normalized_spec;
use crate::glmath::StandardVec;
use crate::glmath::ThreeDimSwizzle;
use crate::glmath::TwoDimSwizzle;
use crate::glmath::vec2::Vec2;
use crate::glmath::vec3::Vec3;
use crate::glmath::vectorable::dot4;
use crate::glmath::vectorable::Vectorable;
use vstd::prelude::*;

verus! {

/// A vector of four scalars.
#[derive(Debug, Copy)]
pub struct Vec4<T: Vectorable> {
    pub x: T,
    pub y: T,
    pub z: T,
    pub w: T,
}

impl<T: Vectorable> Clone for Vec4<T> {
    fn clone(&self) -> (r: Self)
        ensures
            r == *self,
    {
        *self
    }
}

/// The zero vector.
impl<T: Vectorable> Default for Vec4<T> {
    fn default() -> (r: Self)
        ensures
            r == Self::zero_spec(),
    {
        Self::zero()
    }
}

impl<T: Vectorable> Vec4<T> {
    /// The vector whose components are all zero.
    pub open spec fn zero_spec() -> Vec4<T> {
        Vec4 {
            x: T::zero_spec(),
            y: T::zero_spec(),
            z: T::zero_spec(),
            w: T::zero_spec(),
        }
    }

    /// The unit vector along the first axis.
    pub open spec fn unit_x_spec() -> Vec4<T> {
        Vec4 {
            x: T::one_spec(),
            y: T::zero_spec(),
            z: T::zero_spec(),
            w: T::zero_spec(),
        }
    }

    /// The unit vector along the second axis.
    pub open spec fn unit_y_spec() -> Vec4<T> {
        Vec4 {
            x: T::zero_spec(),
            y: T::one_spec(),
            z: T::zero_spec(),
            w: T::zero_spec(),
        }
    }

    /// The unit vector along the third axis.
    pub open spec fn unit_z_spec() -> Vec4<T> {
        Vec4 {
            x: T::zero_spec(),
            y: T::zero_spec(),
            z: T::one_spec(),
            w: T::zero_spec(),
        }
    }

    /// The unit vector along the fourth axis.
    pub open spec fn unit_w_spec() -> Vec4<T> {
        Vec4 {
            x: T::zero_spec(),
            y: T::zero_spec(),
            z: T::zero_spec(),
            w: T::one_spec(),
        }
    }

    /// Component `i`, counted from zero.
    pub open spec fn component(self, i: int) -> T {
        if i == 0 {
            self.x
        } else if i == 1 {
            self.y
        } else if i == 2 {
            self.z
        } else {
            self.w
        }
    }

    /// Every component negated.
    pub open spec fn negated(self) -> Vec4<T> {
        Vec4 {
            x: self.x.neg_spec(),
            y: self.y.neg_spec(),
            z: self.z.neg_spec(),
            w: self.w.neg_spec(),
        }
    }

    /// The component-wise sum.
    pub open spec fn plus(self, rhs: Vec4<T>) -> Vec4<T> {
        Vec4 {
            x: self.x.add_spec(rhs.x),
            y: self.y.add_spec(rhs.y),
            z: self.z.add_spec(rhs.z),
            w: self.w.add_spec(rhs.w),
        }
    }

    /// The component-wise difference.
    pub open spec fn minus(self, rhs: Vec4<T>) -> Vec4<T> {
        Vec4 {
            x: self.x.sub_spec(rhs.x),
            y: self.y.sub_spec(rhs.y),
            z: self.z.sub_spec(rhs.z),
            w: self.w.sub_spec(rhs.w),
        }
    }

    /// Every component multiplied by `k`.
    pub open spec fn scaled_by(self, k: T) -> Vec4<T> {
        Vec4 {
            x: self.x.mul_spec(k),
            y: self.y.mul_spec(k),
            z: self.z.mul_spec(k),
            w: self.w.mul_spec(k),
        }
    }

    /// Normalizing the zero vector leaves it as it is, wherever zero times
    /// zero and zero plus zero are zero and the square root of zero compares
    /// equal to zero.
    pub proof fn lemma_zero_is_its_own_normalization()
        requires
            T::zero_spec().mul_spec(T::zero_spec()) == T::zero_spec(),
            T::zero_spec().add_spec(T::zero_spec()) == T::zero_spec(),
            T::zero_spec().sqrt_spec().eq_spec(T::zero_spec()),
        ensures
            normalized_spec(Self::zero_spec()) == Self::zero_spec(),
    {
    }

    /// The vector with the given components.
    pub fn new(x: T, y: T, z: T, w: T) -> (v: Vec4<T>)
        ensures
            v == (Vec4 { x, y, z, w }),
    {
        Vec4 { x, y, z, w }
    }

    /// The vector whose components are all zero.
    pub fn zero() -> (v: Vec4<T>)
        ensures
            v == Self::zero_spec(),
    {
        Vec4 { x: T::zero(), y: T::zero(), z: T::zero(), w: T::zero() }
    }

    /// The unit vector along the first axis.
    pub fn unit_x() -> (v: Vec4<T>)
        ensures
            v == Self::unit_x_spec(),
    {
        Vec4 { x: T::one(), y: T::zero(), z: T::zero(), w: T::zero() }
    }

    /// The unit vector along the second axis.
    pub fn unit_y() -> (v: Vec4<T>)
        ensures
            v == Self::unit_y_spec(),
    {
        Vec4 { x: T::zero(), y: T::one(), z: T::zero(), w: T::zero() }
    }

    /// The unit vector along the third axis.
    pub fn unit_z() -> (v: Vec4<T>)
        ensures
            v == Self::unit_z_spec(),
    {
        Vec4 { x: T::zero(), y: T::zero(), z: T::one(), w: T::zero() }
    }

    /// The unit vector along the fourth axis.
    pub fn unit_w() -> (v: Vec4<T>)
        ensures
            v == Self::unit_w_spec(),
    {
        Vec4 { x: T::zero(), y: T::zero(), z: T::zero(), w: T::one() }
    }
}

impl<T: Vectorable> StandardVec<T> for Vec4<T> {
    open spec fn length_sq_spec(self) -> T {
        dot4(self.x, self.x, self.y, self.y, self.z, self.z, self.w, self.w)
    }

    open spec fn dot_spec(self, other: Vec4<T>) -> T {
        dot4(self.x, other.x, self.y, other.y, self.z, other.z, self.w, other.w)
    }

    open spec fn divided_by_spec(self, k: T) -> Vec4<T> {
        Vec4 {
            x: self.x.div_spec(k),
            y: self.y.div_spec(k),
            z: self.z.div_spec(k),
            w: self.w.div_spec(k),
        }
    }

    fn length_sq(&self) -> (r: T) {
        self.x.mul(self.x).add(self.y.mul(self.y)).add(self.z.mul(self.z)).add(self.w.mul(self.w))
    }

    fn dot(&self, other: &Vec4<T>) -> (r: T) {
        self.x.mul(other.x)
            .add(self.y.mul(other.y))
            .add(self.z.mul(other.z))
            .add(self.w.mul(other.w))
    }

    fn divided_by(&self, k: T) -> (r: Vec4<T>) {
        Vec4 { x: self.x.div(k), y: self.y.div(k), z: self.z.div(k), w: self.w.div(k) }
    }
}

/// Two vectors are equal where their lengths compare equal: direction plays
/// no part.
impl<T: Vectorable> PartialEq for Vec4<T> {
    fn eq(&self, other: &Self) -> (r: bool) {
        self.length().eq(other.length())
    }
}

impl<T: Vectorable> vstd::std_specs::cmp::PartialEqSpecImpl for Vec4<T> {
    open spec fn obeys_eq_spec() -> bool {
        true
    }

    open spec fn eq_spec(&self, other: &Self) -> bool {
        length_spec(*self).eq_spec(length_spec(*other))
    }
}

/// Vectors are ordered by their lengths. Two lengths of which neither is
/// below or equal to the other are unordered.
impl<T: Vectorable> PartialOrd for Vec4<T> {
    fn partial_cmp(&self, other: &Self) -> (r: Option<Ordering>) {
        let len = self.length();
        let other_len = other.length();
        match (len.le(other_len), other_len.le(len)) {
            (false, false) => None,
            (false, true) => Some(Ordering::Greater),
            (true, false) => Some(Ordering::Less),
            (true, true) => Some(Ordering::Equal),
        }
    }
}

impl<T: Vectorable> vstd::std_specs::cmp::PartialOrdSpecImpl for Vec4<T> {
    open spec fn obeys_partial_cmp_spec() -> bool {
        true
    }

    open spec fn partial_cmp_spec(&self, other: &Self) -> Option<Ordering> {
        let len = length_spec(*self);
        let other_len = length_spec(*other);
        match (len.le_spec(other_len), other_len.le_spec(len)) {
            (false, false) => None,
            (false, true) => Some(Ordering::Greater),
            (true, false) => Some(Ordering::Less),
            (true, true) => Some(Ordering::Equal),
        }
    }
}

impl<T: Vectorable> core::ops::Neg for Vec4<T> {
    type Output = Vec4<T>;

    fn neg(self) -> (r: Vec4<T>)
        ensures
            r == self.negated(),
    {
        Vec4 { x: self.x.neg(), y: self.y.neg(), z: self.z.neg(), w: self.w.neg() }
    }
}

impl<T: Vectorable> vstd::std_specs::ops::NegSpecImpl for Vec4<T> {
    open spec fn obeys_neg_spec() -> bool {
        true
    }

    open spec fn neg_req(self) -> bool {
        true
    }

    open spec fn neg_spec(self) -> Vec4<T> {
        self.negated()
    }
}

impl<T: Vectorable> core::ops::Add<Vec4<T>> for Vec4<T> {
    type Output = Vec4<T>;

    fn add(self, rhs: Vec4<T>) -> (r: Vec4<T>)
        ensures
            r == self.plus(rhs),
    {
        Vec4 {
            x: self.x.add(rhs.x),
            y: self.y.add(rhs.y),
            z: self.z.add(rhs.z),
            w: self.w.add(rhs.w),
        }
    }
}

impl<T: Vectorable> vstd::std_specs::ops::AddSpecImpl<Vec4<T>> for Vec4<T> {
    open spec fn obeys_add_spec() -> bool {
        true
    }

    open spec fn add_req(self, rhs: Vec4<T>) -> bool {
        true
    }

    open spec fn add_spec(self, rhs: Vec4<T>) -> Vec4<T> {
        self.plus(rhs)
    }
}

impl<T: Vectorable> core::ops::AddAssign<Vec4<T>> for Vec4<T> {
    fn add_assign(&mut self, rhs: Vec4<T>)
        ensures
            *final(self) == old(self).plus(rhs),
    {
        self.x = self.x.add(rhs.x);
        self.y = self.y.add(rhs.y);
        self.z = self.z.add(rhs.z);
        self.w = self.w.add(rhs.w);
    }
}

impl<T: Vectorable> core::ops::Sub<Vec4<T>> for Vec4<T> {
    type Output = Vec4<T>;

    fn sub(self, rhs: Vec4<T>) -> (r: Vec4<T>)
        ensures
            r == self.minus(rhs),
    {
        Vec4 {
            x: self.x.sub(rhs.x),
            y: self.y.sub(rhs.y),
            z: self.z.sub(rhs.z),
            w: self.w.sub(rhs.w),
        }
    }
}

impl<T: Vectorable> vstd::std_specs::ops::SubSpecImpl<Vec4<T>> for Vec4<T> {
    open spec fn obeys_sub_spec() -> bool {
        true
    }

    open spec fn sub_req(self, rhs: Vec4<T>) -> bool {
        true
    }

    open spec fn sub_spec(self, rhs: Vec4<T>) -> Vec4<T> {
        self.minus(rhs)
    }
}

impl<T: Vectorable> core::ops::SubAssign<Vec4<T>> for Vec4<T> {
    fn sub_assign(&mut self, rhs: Vec4<T>)
        ensures
            *final(self) == old(self).minus(rhs),
    {
        self.x = self.x.sub(rhs.x);
        self.y = self.y.sub(rhs.y);
        self.z = self.z.sub(rhs.z);
        self.w = self.w.sub(rhs.w);
    }
}

/// Scaling by a scalar.
impl<T: Vectorable> core::ops::Mul<T> for Vec4<T> {
    type Output = Vec4<T>;

    fn mul(self, rhs: T) -> (r: Vec4<T>)
        ensures
            r == self.scaled_by(rhs),
    {
        Vec4 {
            x: self.x.mul(rhs),
            y: self.y.mul(rhs),
            z: self.z.mul(rhs),
            w: self.w.mul(rhs),
        }
    }
}

impl<T: Vectorable> vstd::std_specs::ops::MulSpecImpl<T> for Vec4<T> {
    open spec fn obeys_mul_spec() -> bool {
        true
    }

    open spec fn mul_req(self, rhs: T) -> bool {
        true
    }

    open spec fn mul_spec(self, rhs: T) -> Vec4<T> {
        self.scaled_by(rhs)
    }
}

impl<T: Vectorable> core::ops::MulAssign<T> for Vec4<T> {
    fn mul_assign(&mut self, rhs: T)
        ensures
            *final(self) == old(self).scaled_by(rhs),
    {
        self.x = self.x.mul(rhs);
        self.y = self.y.mul(rhs);
        self.z = self.z.mul(rhs);
        self.w = self.w.mul(rhs);
    }
}

/// Division by a scalar.
impl<T: Vectorable> core::ops::Div<T> for Vec4<T> {
    type Output = Vec4<T>;

    fn div(self, rhs: T) -> (r: Vec4<T>)
        ensures
            r == self.divided_by_spec(rhs),
    {
        self.divided_by(rhs)
    }
}

impl<T: Vectorable> vstd::std_specs::ops::DivSpecImpl<T> for Vec4<T> {
    open spec fn obeys_div_spec() -> bool {
        true
    }

    open spec fn div_req(self, rhs: T) -> bool {
        true
    }

    open spec fn div_spec(self, rhs: T) -> Vec4<T> {
        self.divided_by_spec(rhs)
    }
}

impl<T: Vectorable> core::ops::DivAssign<T> for Vec4<T> {
    fn div_assign(&mut self, rhs: T)
        ensures
            *final(self) == old(self).divided_by_spec(rhs),
    {
        self.x = self.x.div(rhs);
        self.y = self.y.div(rhs);
        self.z = self.z.div(rhs);
        self.w = self.w.div(rhs);
    }
}

/// The dot product.
impl<T: Vectorable> core::ops::Mul<Vec4<T>> for Vec4<T> {
    type Output = T;

    fn mul(self, rhs: Vec4<T>) -> (r: T)
        ensures
            r == self.dot_spec(rhs),
    {
        self.dot(&rhs)
    }
}

impl<T: Vectorable> vstd::std_specs::ops::MulSpecImpl<Vec4<T>> for Vec4<T> {
    open spec fn obeys_mul_spec() -> bool {
        true
    }

    open spec fn mul_req(self, rhs: Vec4<T>) -> bool {
        true
    }

    open spec fn mul_spec(self, rhs: Vec4<T>) -> T {
        self.dot_spec(rhs)
    }
}

impl<T: Vectorable> TwoDimSwizzle<T> for Vec4<T> {
    open spec fn x_spec(&self) -> T {
        self.x
    }

    open spec fn y_spec(&self) -> T {
        self.y
    }

    fn x(&self) -> (r: &T) {
        &self.x
    }

    fn y(&self) -> (r: &T) {
        &self.y
    }

    fn xy(&self) -> (r: Vec2<T>) {
        Vec2 { x: self.x, y: self.y }
    }

    fn yx(&self) -> (r: Vec2<T>) {
        Vec2 { x: self.y, y: self.x }
    }
}

impl<T: Vectorable> ThreeDimSwizzle<T> for Vec4<T> {
    open spec fn z_spec(&self) -> T {
        self.z
    }

    fn z(&self) -> (r: &T) {
        &self.z
    }

    fn xyz(&self) -> (r: Vec3<T>) {
        Vec3 { x: self.x, y: self.y, z: self.z }
    }

    fn yxz(&self) -> (r: Vec3<T>) {
        Vec3 { x: self.y, y: self.x, z: self.z }
    }

    fn zxy(&self) -> (r: Vec3<T>) {
        Vec3 { x: self.z, y: self.x, z: self.y }
    }

    fn xzy(&self) -> (r: Vec3<T>) {
        Vec3 { x: self.x, y: self.z, z: self.y }
    }

    fn yzx(&self) -> (r: Vec3<T>) {
        Vec3 { x: self.y, y: self.z, z: self.x }
    }

    fn zyx(&self) -> (r: Vec3<T>) {
        Vec3 { x: self.z, y: self.y, z: self.x }
    }
}

impl<T: Vectorable> FourDimSwizzle<T> for Vec4<T> {
    open spec fn w_spec(&self) -> T {
        self.w
    }

    fn w(&self) -> (r: &T) {
        &self.w
    }

    fn xyzw(&self) -> (r: Vec4<T>) {
        *self
    }

    fn yxzw(&self) -> (r: Vec4<T>) {
        Vec4 { x: self.y, y: self.x, z: self.z, w: self.w }
    }

    fn zxyw(&self) -> (r: Vec4<T>) {
        Vec4 { x: self.z, y: self.x, z: self.y, w: self.w }
    }

    fn xzyw(&self) -> (r: Vec4<T>) {
        Vec4 { x: self.x, y: self.z, z: self.y, w: self.w }
    }

    fn yzxw(&self) -> (r: Vec4<T>) {
        Vec4 { x: self.y, y: self.z, z: self.x, w: self.w }
    }

    fn zyxw(&self) -> (r: Vec4<T>) {
        Vec4 { x: self.z, y: self.y, z: self.x, w: self.w }
    }

    fn zywx(&self) -> (r: Vec4<T>) {
        Vec4 { x: self.z, y: self.y, z: self.w, w: self.x }
    }

    fn yzwx(&self) -> (r: Vec4<T>) {
        Vec4 { x: self.y, y: self.z, z: self.w, w: self.x }
    }

    fn wzyx(&self) -> (r: Vec4<T>) {
        Vec4 { x: self.w, y: self.z, z: self.y, w: self.x }
    }

    fn zwyx(&self) -> (r: Vec4<T>) {
        Vec4 { x: self.z, y: self.w, z: self.y, w: self.x }
    }

    fn ywzx(&self) -> (r: Vec4<T>) {
        Vec4 { x: self.y, y: self.w, z: self.z, w: self.x }
    }

    fn wyzx(&self) -> (r: Vec4<T>) {
        Vec4 { x: self.w, y: self.y, z: self.z, w: self.x }
    }

    fn wxzy(&self) -> (r: Vec4<T>) {
        Vec4 { x: self.w, y: self.x, z: self.z, w: self.y }
    }

    fn xwzy(&self) -> (r: Vec4<T>) {
        Vec4 { x: self.x, y: self.w, z: self.z, w: self.y }
    }

    fn zwxy(&self) -> (r: Vec4<T>) {
        Vec4 { x: self.z, y: self.w, z: self.x, w: self.y }
    }

    fn wzxy(&self) -> (r: Vec4<T>) {
        Vec4 { x: self.w, y: self.z, z: self.x, w: self.y }
    }

    fn xzwy(&self) -> (r: Vec4<T>) {
        Vec4 { x: self.x, y: self.z, z: self.w, w: self.y }
    }

    fn zxwy(&self) -> (r: Vec4<T>) {
        Vec4 { x: self.z, y: self.x, z: self.w, w: self.y }
    }

    fn yxwz(&self) -> (r: Vec4<T>) {
        Vec4 { x: self.y, y: self.x, z: self.w, w: self.z }
    }

    fn xywz(&self) -> (r: Vec4<T>) {
        Vec4 { x: self.x, y: self.y, z: self.w, w: self.z }
    }

    fn wyxz(&self) -> (r: Vec4<T>) {
        Vec4 { x: self.w, y: self.y, z: self.x, w: self.z }
    }

    fn ywxz(&self) -> (r: Vec4<T>) {
        Vec4 { x: self.y, y: self.w, z: self.x, w: self.z }
    }

    fn xwyz(&self) -> (r: Vec4<T>) {
        Vec4 { x: self.x, y: self.w, z: self.y, w: self.z }
    }

    fn wxyz(&self) -> (r: Vec4<T>) {
        Vec4 { x: self.w, y: self.x, z: self.y, w: self.z }
    }
}

} // verus!
