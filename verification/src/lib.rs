//! Small linear algebra for geometry: vectors of two, three and four
//! components, square matrices of the same sizes, and quaternions, all generic
//! over a scalar type that implements [`glmath::vectorable::Vectorable`].
//!
//! Every operation is stated over the scalar's own arithmetic, term by term and
//! in the order in which it is evaluated, so the contracts hold for exact and
//! for rounding scalars alike.

pub mod glmath;
