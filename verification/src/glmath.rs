//! The vector, matrix and quaternion types, and the traits that gather what
//! the types of one kind have in common.

use crate::glmath::quat::Quat;
use crate::glmath::vec2::Vec2;
use crate::glmath::vec3::Vec3;
use crate::glmath::vec4::Vec4;
use crate::glmath::vectorable::Vectorable;
use vstd::prelude::*;

pub mod mat22;
pub mod mat33;
pub mod mat44;
pub mod quat;
pub mod vec2;
pub mod vec3;
pub mod vec4;
pub mod vectorable;

verus! {

/// What every square matrix offers beyond its operators: the transpose, the
/// determinant and the inverse.
pub trait StandardMat<T: Vectorable>: Sized + Copy {
    /// The matrix mirrored at its diagonal.
    spec fn transposed_spec(self) -> Self;

    /// The determinant.
    spec fn det_spec(self) -> T;

    /// The inverse, or the matrix itself where it has none.
    spec fn inverted_spec(self) -> Self;

    fn transpose(&mut self)
        ensures
            *final(self) == old(self).transposed_spec(),
    ;

    fn get_transposed(&self) -> (r: Self)
        ensures
            r == self.transposed_spec(),
    {
        let mut mat = *self;
        mat.transpose();
        mat
    }

    /// Replaces the matrix by its inverse. A matrix whose determinant compares
    /// equal to zero is left as it is.
    fn invert(&mut self)
        ensures
            *final(self) == old(self).inverted_spec(),
            old(self).det_spec().eq_spec(T::zero_spec()) ==> *final(self) == *old(self),
    ;

    /// The inverse, or the matrix itself where its determinant compares equal
    /// to zero.
    fn get_inverted(&self) -> (r: Self)
        ensures
            r == self.inverted_spec(),
            self.det_spec().eq_spec(T::zero_spec()) ==> r == *self,
    {
        let mut mat = *self;
        mat.invert();
        mat
    }

    fn det(&self) -> (d: T)
        ensures
            d == self.det_spec(),
    ;
}

/// The affine operations of a matrix of four rows and four columns: scaling,
/// translation and rotation, each composed onto the matrix from the right.
pub trait StandardMat44<T: Vectorable>: Sized + Copy {
    /// The first three columns multiplied by the components of `scale`, in
    /// order.
    spec fn scaled_spec(self, scale: Vec3<T>) -> Self;

    /// The fourth column moved by `pos`, taken in the basis that the first
    /// three columns form.
    spec fn translated_spec(self, pos: Vec3<T>) -> Self;

    /// The first three columns rotated about the unit vector `axis` by
    /// `angle`, in radians.
    spec fn rotated_spec(self, axis: Vec3<T>, angle: T) -> Self;

    fn scale(&mut self, scale: Vec3<T>)
        ensures
            *final(self) == old(self).scaled_spec(scale),
    ;

    fn get_scaled(&self, scale: Vec3<T>) -> (r: Self)
        ensures
            r == self.scaled_spec(scale),
    {
        let mut mat = *self;
        mat.scale(scale);
        mat
    }

    fn translate(&mut self, pos: Vec3<T>)
        ensures
            *final(self) == old(self).translated_spec(pos),
    ;

    fn get_translated(&self, pos: Vec3<T>) -> (r: Self)
        ensures
            r == self.translated_spec(pos),
    {
        let mut mat = *self;
        mat.translate(pos);
        mat
    }

    fn rotate(&mut self, axis: Vec3<T>, angle: T)
        ensures
            *final(self) == old(self).rotated_spec(axis, angle),
    ;

    fn get_rotated(&self, axis: Vec3<T>, angle: T) -> (r: Self)
        ensures
            r == self.rotated_spec(axis, angle),
    {
        let mut mat = *self;
        mat.rotate(axis, angle);
        mat
    }
}

/// The length of a quaternion and its normalization.
///
/// `divided_by` repeats the type's `/` operator under a name, so that the
/// provided methods can use it.
pub trait StandardQuat<T: Vectorable>: Sized + Copy {
    /// The sum of the four squared components.
    spec fn length_sq_spec(self) -> T;

    /// Every component divided by `k`.
    spec fn divided_by_spec(self, k: T) -> Self;

    fn length_sq(&self) -> (r: T)
        ensures
            r == self.length_sq_spec(),
    ;

    fn divided_by(&self, k: T) -> (r: Self)
        ensures
            r == self.divided_by_spec(k),
    ;

    /// The length: the square root of the squared length.
    fn length(&self) -> (r: T)
        ensures
            r == self.length_sq_spec().sqrt_spec(),
    {
        self.length_sq().sqrt()
    }

    /// Divides the quaternion by its length. The length is not tested against
    /// zero: what the division by a zero length gives is the scalar's affair.
    fn normalize(&mut self)
        ensures
            *final(self) == old(self).divided_by_spec(old(self).length_sq_spec().sqrt_spec()),
    {
        *self = self.divided_by(self.length());
    }

    /// The quaternion divided by its length, which is not tested against zero.
    fn get_normalized(&self) -> (r: Self)
        ensures
            r == self.divided_by_spec(self.length_sq_spec().sqrt_spec()),
    {
        self.divided_by(self.length())
    }
}

/// What every vector type offers beyond its operators: lengths, normalization
/// and the angle to another vector.
///
/// `dot` and `divided_by` repeat the type's `*` and `/` operators under a name,
/// so that the provided methods can be written once for all vector types.
pub trait StandardVec<T: Vectorable>: Sized + Copy {
    /// The sum of the squared components.
    spec fn length_sq_spec(self) -> T;

    /// The dot product: the sum of the component-wise products.
    spec fn dot_spec(self, other: Self) -> T;

    /// Every component divided by `k`.
    spec fn divided_by_spec(self, k: T) -> Self;

    fn length_sq(&self) -> (r: T)
        ensures
            r == self.length_sq_spec(),
    ;

    fn dot(&self, other: &Self) -> (r: T)
        ensures
            r == self.dot_spec(*other),
    ;

    fn divided_by(&self, k: T) -> (r: Self)
        ensures
            r == self.divided_by_spec(k),
    ;

    /// The length: the square root of the squared length.
    fn length(&self) -> (r: T)
        ensures
            r == self.length_sq_spec().sqrt_spec(),
    {
        self.length_sq().sqrt()
    }

    /// Divides the vector by its length, unless that length compares equal to
    /// zero: then the vector is left as it is.
    fn normalize(&mut self)
        ensures
            *final(self) == (if old(self).length_sq_spec().sqrt_spec().eq_spec(T::zero_spec()) {
                *old(self)
            } else {
                old(self).divided_by_spec(old(self).length_sq_spec().sqrt_spec())
            }),
    {
        let len = self.length();
        if !len.eq(T::zero()) {
            *self = self.divided_by(len);
        }
    }

    /// The vector divided by its length, or the vector itself where that
    /// length compares equal to zero.
    fn get_normalized(&self) -> (r: Self)
        ensures
            r == (if self.length_sq_spec().sqrt_spec().eq_spec(T::zero_spec()) {
                *self
            } else {
                self.divided_by_spec(self.length_sq_spec().sqrt_spec())
            }),
    {
        let len = self.length();
        if !len.eq(T::zero()) {
            return self.divided_by(len);
        }
        *self
    }

    /// The angle between two vectors, in radians: the arc cosine of their dot
    /// product over the product of their lengths. Neither length is tested
    /// against zero.
    fn angle_between(&self, other: &Self) -> (r: T)
        ensures
            r == self.dot_spec(*other).div_spec(
                self.length_sq_spec().sqrt_spec().mul_spec(other.length_sq_spec().sqrt_spec()),
            ).acos_spec(),
    {
        let len = self.length();
        let other_len = other.length();
        let combined_len = len.mul(other_len);
        let dot = self.dot(other);
        let intermediate_value = dot.div(combined_len);
        intermediate_value.acos()
    }
}

/// The length of a vector: the square root of its squared length.
pub open spec fn length_spec<T: Vectorable, V: StandardVec<T>>(v: V) -> T {
    v.length_sq_spec().sqrt_spec()
}

/// The vector divided by its length, or the vector itself where that length
/// compares equal to zero.
pub open spec fn normalized_spec<T: Vectorable, V: StandardVec<T>>(v: V) -> V {
    if length_spec(v).eq_spec(T::zero_spec()) {
        v
    } else {
        v.divided_by_spec(length_spec(v))
    }
}

/// The angle between two vectors as `angle_between` computes it.
pub open spec fn angle_between_spec<T: Vectorable, V: StandardVec<T>>(a: V, b: V) -> T {
    a.dot_spec(b).div_spec(length_spec(a).mul_spec(length_spec(b))).acos_spec()
}

/// Access to the first two components, singly and as a pair in either order.
pub trait TwoDimSwizzle<T: Vectorable> {
    /// The first component.
    spec fn x_spec(&self) -> T;

    /// The second component.
    spec fn y_spec(&self) -> T;

    fn x(&self) -> (r: &T)
        ensures
            *r == self.x_spec(),
    ;

    fn y(&self) -> (r: &T)
        ensures
            *r == self.y_spec(),
    ;

    fn xy(&self) -> (r: Vec2<T>)
        ensures
            r == (Vec2 { x: self.x_spec(), y: self.y_spec() }),
    ;

    fn yx(&self) -> (r: Vec2<T>)
        ensures
            r == (Vec2 { x: self.y_spec(), y: self.x_spec() }),
    ;
}

/// Access to the third component, and the first three components in every
/// order.
pub trait ThreeDimSwizzle<T: Vectorable>: TwoDimSwizzle<T> {
    /// The third component.
    spec fn z_spec(&self) -> T;

    fn z(&self) -> (r: &T)
        ensures
            *r == self.z_spec(),
    ;

    fn xyz(&self) -> (r: Vec3<T>)
        ensures
            r == (Vec3 { x: self.x_spec(), y: self.y_spec(), z: self.z_spec() }),
    ;

    fn yxz(&self) -> (r: Vec3<T>)
        ensures
            r == (Vec3 { x: self.y_spec(), y: self.x_spec(), z: self.z_spec() }),
    ;

    fn zxy(&self) -> (r: Vec3<T>)
        ensures
            r == (Vec3 { x: self.z_spec(), y: self.x_spec(), z: self.y_spec() }),
    ;

    fn xzy(&self) -> (r: Vec3<T>)
        ensures
            r == (Vec3 { x: self.x_spec(), y: self.z_spec(), z: self.y_spec() }),
    ;

    fn yzx(&self) -> (r: Vec3<T>)
        ensures
            r == (Vec3 { x: self.y_spec(), y: self.z_spec(), z: self.x_spec() }),
    ;

    fn zyx(&self) -> (r: Vec3<T>)
        ensures
            r == (Vec3 { x: self.z_spec(), y: self.y_spec(), z: self.x_spec() }),
    ;
}

/// Access to the fourth component, and all four components in every order.
/// Each method is named by the components it returns, in order.
pub trait FourDimSwizzle<T: Vectorable>: ThreeDimSwizzle<T> {
    /// The fourth component.
    spec fn w_spec(&self) -> T;

    fn w(&self) -> (r: &T)
        ensures
            *r == self.w_spec(),
    ;

    fn xyzw(&self) -> (r: Vec4<T>)
        ensures
            r == (Vec4 { x: self.x_spec(), y: self.y_spec(), z: self.z_spec(), w: self.w_spec() }),
    ;

    fn yxzw(&self) -> (r: Vec4<T>)
        ensures
            r == (Vec4 { x: self.y_spec(), y: self.x_spec(), z: self.z_spec(), w: self.w_spec() }),
    ;

    fn zxyw(&self) -> (r: Vec4<T>)
        ensures
            r == (Vec4 { x: self.z_spec(), y: self.x_spec(), z: self.y_spec(), w: self.w_spec() }),
    ;

    fn xzyw(&self) -> (r: Vec4<T>)
        ensures
            r == (Vec4 { x: self.x_spec(), y: self.z_spec(), z: self.y_spec(), w: self.w_spec() }),
    ;

    fn yzxw(&self) -> (r: Vec4<T>)
        ensures
            r == (Vec4 { x: self.y_spec(), y: self.z_spec(), z: self.x_spec(), w: self.w_spec() }),
    ;

    fn zyxw(&self) -> (r: Vec4<T>)
        ensures
            r == (Vec4 { x: self.z_spec(), y: self.y_spec(), z: self.x_spec(), w: self.w_spec() }),
    ;

    fn zywx(&self) -> (r: Vec4<T>)
        ensures
            r == (Vec4 { x: self.z_spec(), y: self.y_spec(), z: self.w_spec(), w: self.x_spec() }),
    ;

    fn yzwx(&self) -> (r: Vec4<T>)
        ensures
            r == (Vec4 { x: self.y_spec(), y: self.z_spec(), z: self.w_spec(), w: self.x_spec() }),
    ;

    fn wzyx(&self) -> (r: Vec4<T>)
        ensures
            r == (Vec4 { x: self.w_spec(), y: self.z_spec(), z: self.y_spec(), w: self.x_spec() }),
    ;

    fn zwyx(&self) -> (r: Vec4<T>)
        ensures
            r == (Vec4 { x: self.z_spec(), y: self.w_spec(), z: self.y_spec(), w: self.x_spec() }),
    ;

    fn ywzx(&self) -> (r: Vec4<T>)
        ensures
            r == (Vec4 { x: self.y_spec(), y: self.w_spec(), z: self.z_spec(), w: self.x_spec() }),
    ;

    fn wyzx(&self) -> (r: Vec4<T>)
        ensures
            r == (Vec4 { x: self.w_spec(), y: self.y_spec(), z: self.z_spec(), w: self.x_spec() }),
    ;

    fn wxzy(&self) -> (r: Vec4<T>)
        ensures
            r == (Vec4 { x: self.w_spec(), y: self.x_spec(), z: self.z_spec(), w: self.y_spec() }),
    ;

    fn xwzy(&self) -> (r: Vec4<T>)
        ensures
            r == (Vec4 { x: self.x_spec(), y: self.w_spec(), z: self.z_spec(), w: self.y_spec() }),
    ;

    fn zwxy(&self) -> (r: Vec4<T>)
        ensures
            r == (Vec4 { x: self.z_spec(), y: self.w_spec(), z: self.x_spec(), w: self.y_spec() }),
    ;

    fn wzxy(&self) -> (r: Vec4<T>)
        ensures
            r == (Vec4 { x: self.w_spec(), y: self.z_spec(), z: self.x_spec(), w: self.y_spec() }),
    ;

    fn xzwy(&self) -> (r: Vec4<T>)
        ensures
            r == (Vec4 { x: self.x_spec(), y: self.z_spec(), z: self.w_spec(), w: self.y_spec() }),
    ;

    fn zxwy(&self) -> (r: Vec4<T>)
        ensures
            r == (Vec4 { x: self.z_spec(), y: self.x_spec(), z: self.w_spec(), w: self.y_spec() }),
    ;

    fn yxwz(&self) -> (r: Vec4<T>)
        ensures
            r == (Vec4 { x: self.y_spec(), y: self.x_spec(), z: self.w_spec(), w: self.z_spec() }),
    ;

    fn xywz(&self) -> (r: Vec4<T>)
        ensures
            r == (Vec4 { x: self.x_spec(), y: self.y_spec(), z: self.w_spec(), w: self.z_spec() }),
    ;

    fn wyxz(&self) -> (r: Vec4<T>)
        ensures
            r == (Vec4 { x: self.w_spec(), y: self.y_spec(), z: self.x_spec(), w: self.z_spec() }),
    ;

    fn ywxz(&self) -> (r: Vec4<T>)
        ensures
            r == (Vec4 { x: self.y_spec(), y: self.w_spec(), z: self.x_spec(), w: self.z_spec() }),
    ;

    fn xwyz(&self) -> (r: Vec4<T>)
        ensures
            r == (Vec4 { x: self.x_spec(), y: self.w_spec(), z: self.y_spec(), w: self.z_spec() }),
    ;

    fn wxyz(&self) -> (r: Vec4<T>)
        ensures
            r == (Vec4 { x: self.w_spec(), y: self.x_spec(), z: self.y_spec(), w: self.z_spec() }),
    ;
}

/// The components of a quaternion in every order. Each method is named by the
/// components it returns, in order.
pub trait QuaternionSwizzle<T: Vectorable> {
    /// The first imaginary component.
    spec fn x_spec(&self) -> T;

    /// The second imaginary component.
    spec fn y_spec(&self) -> T;

    /// The third imaginary component.
    spec fn z_spec(&self) -> T;

    /// The real component.
    spec fn w_spec(&self) -> T;

    fn w(&self) -> (r: T)
        ensures
            r == self.w_spec(),
    ;

    fn xyzw(&self) -> (r: Quat<T>)
        ensures
            r == (Quat { x: self.x_spec(), y: self.y_spec(), z: self.z_spec(), w: self.w_spec() }),
    ;

    fn yxzw(&self) -> (r: Quat<T>)
        ensures
            r == (Quat { x: self.y_spec(), y: self.x_spec(), z: self.z_spec(), w: self.w_spec() }),
    ;

    fn zxyw(&self) -> (r: Quat<T>)
        ensures
            r == (Quat { x: self.z_spec(), y: self.x_spec(), z: self.y_spec(), w: self.w_spec() }),
    ;

    fn xzyw(&self) -> (r: Quat<T>)
        ensures
            r == (Quat { x: self.x_spec(), y: self.z_spec(), z: self.y_spec(), w: self.w_spec() }),
    ;

    fn yzxw(&self) -> (r: Quat<T>)
        ensures
            r == (Quat { x: self.y_spec(), y: self.z_spec(), z: self.x_spec(), w: self.w_spec() }),
    ;

    fn zyxw(&self) -> (r: Quat<T>)
        ensures
            r == (Quat { x: self.z_spec(), y: self.y_spec(), z: self.x_spec(), w: self.w_spec() }),
    ;

    fn zywx(&self) -> (r: Quat<T>)
        ensures
            r == (Quat { x: self.z_spec(), y: self.y_spec(), z: self.w_spec(), w: self.x_spec() }),
    ;

    fn yzwx(&self) -> (r: Quat<T>)
        ensures
            r == (Quat { x: self.y_spec(), y: self.z_spec(), z: self.w_spec(), w: self.x_spec() }),
    ;

    fn wzyx(&self) -> (r: Quat<T>)
        ensures
            r == (Quat { x: self.w_spec(), y: self.z_spec(), z: self.y_spec(), w: self.x_spec() }),
    ;

    fn zwyx(&self) -> (r: Quat<T>)
        ensures
            r == (Quat { x: self.z_spec(), y: self.w_spec(), z: self.y_spec(), w: self.x_spec() }),
    ;

    fn ywzx(&self) -> (r: Quat<T>)
        ensures
            r == (Quat { x: self.y_spec(), y: self.w_spec(), z: self.z_spec(), w: self.x_spec() }),
    ;

    fn wyzx(&self) -> (r: Quat<T>)
        ensures
            r == (Quat { x: self.w_spec(), y: self.y_spec(), z: self.z_spec(), w: self.x_spec() }),
    ;

    fn wxzy(&self) -> (r: Quat<T>)
        ensures
            r == (Quat { x: self.w_spec(), y: self.x_spec(), z: self.z_spec(), w: self.y_spec() }),
    ;

    fn xwzy(&self) -> (r: Quat<T>)
        ensures
            r == (Quat { x: self.x_spec(), y: self.w_spec(), z: self.z_spec(), w: self.y_spec() }),
    ;

    fn zwxy(&self) -> (r: Quat<T>)
        ensures
            r == (Quat { x: self.z_spec(), y: self.w_spec(), z: self.x_spec(), w: self.y_spec() }),
    ;

    fn wzxy(&self) -> (r: Quat<T>)
        ensures
            r == (Quat { x: self.w_spec(), y: self.z_spec(), z: self.x_spec(), w: self.y_spec() }),
    ;

    fn xzwy(&self) -> (r: Quat<T>)
        ensures
            r == (Quat { x: self.x_spec(), y: self.z_spec(), z: self.w_spec(), w: self.y_spec() }),
    ;

    fn zxwy(&self) -> (r: Quat<T>)
        ensures
            r == (Quat { x: self.z_spec(), y: self.x_spec(), z: self.w_spec(), w: self.y_spec() }),
    ;

    fn yxwz(&self) -> (r: Quat<T>)
        ensures
            r == (Quat { x: self.y_spec(), y: self.x_spec(), z: self.w_spec(), w: self.z_spec() }),
    ;

    fn xywz(&self) -> (r: Quat<T>)
        ensures
            r == (Quat { x: self.x_spec(), y: self.y_spec(), z: self.w_spec(), w: self.z_spec() }),
    ;

    fn wyxz(&self) -> (r: Quat<T>)
        ensures
            r == (Quat { x: self.w_spec(), y: self.y_spec(), z: self.x_spec(), w: self.z_spec() }),
    ;

    fn ywxz(&self) -> (r: Quat<T>)
        ensures
            r == (Quat { x: self.y_spec(), y: self.w_spec(), z: self.x_spec(), w: self.z_spec() }),
    ;

    fn xwyz(&self) -> (r: Quat<T>)
        ensures
            r == (Quat { x: self.x_spec(), y: self.w_spec(), z: self.y_spec(), w: self.z_spec() }),
    ;

    fn wxyz(&self) -> (r: Quat<T>)
        ensures
            r == (Quat { x: self.w_spec(), y: self.x_spec(), z: self.y_spec(), w: self.z_spec() }),
    ;
}

} // verus!
