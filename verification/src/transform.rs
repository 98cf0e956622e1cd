//! Affine transforms.

use crate::base::matrix::Matrix;
use crate::base::vector::Vector;
use crate::direction::Direction;
use crate::lane::{exact, lane, lit, sound, Lane};
use crate::rotation::Rotation;
use core::ops::{Add, Div, Mul, MulAssign, Neg, Sub};
use vstd::prelude::*;
use vstd::std_specs::ops::{AddSpec, DivSpec, MulSpec, SubSpec};

verus! {

/// An affine transform of points, directions and normals: a matrix kept
/// together with its inverse, so that inverting costs a swap. The builders
/// make both halves at once; nothing is inverted numerically.
#[derive(Clone, Copy, Debug)]
pub struct Transform<T> {
    pub matrix: Matrix<T>,
    pub inverse: Matrix<T>,
}

/// `2 (a b + c d)`.
pub open spec fn twice_sum<T: Lane>(a: T, b: T, c: T, d: T) -> T {
    lit::<T>(2).mul_spec(a.mul_spec(b).add_spec(c.mul_spec(d)))
}

/// Each step of `twice_sum` is defined.
pub open spec fn twice_sum_req<T: Lane>(a: T, b: T, c: T, d: T) -> bool {
    &&& a.mul_req(b) && c.mul_req(d)
    &&& a.mul_spec(b).add_req(c.mul_spec(d))
    &&& lit::<T>(2).mul_req(a.mul_spec(b).add_spec(c.mul_spec(d)))
}

/// `2 (a b - c d)`.
pub open spec fn twice_difference<T: Lane>(a: T, b: T, c: T, d: T) -> T {
    lit::<T>(2).mul_spec(a.mul_spec(b).sub_spec(c.mul_spec(d)))
}

/// Each step of `twice_difference` is defined.
pub open spec fn twice_difference_req<T: Lane>(a: T, b: T, c: T, d: T) -> bool {
    &&& a.mul_req(b) && c.mul_req(d)
    &&& a.mul_spec(b).sub_req(c.mul_spec(d))
    &&& lit::<T>(2).mul_req(a.mul_spec(b).sub_spec(c.mul_spec(d)))
}

/// `1 - 2 (a a + b b)`.
pub open spec fn one_less_twice_squares<T: Lane>(a: T, b: T) -> T {
    lit::<T>(1).sub_spec(twice_sum(a, a, b, b))
}

/// Each step of `one_less_twice_squares` is defined.
pub open spec fn one_less_twice_squares_req<T: Lane>(a: T, b: T) -> bool {
    &&& twice_sum_req(a, a, b, b)
    &&& lit::<T>(1).sub_req(twice_sum(a, a, b, b))
}

/// `2 (a b + c d)`.
fn twice_sum_of<T: Lane>(a: T, b: T, c: T, d: T) -> (r: T)
    requires
        sound::<T>(),
        twice_sum_req(a, b, c, d),
    ensures
        exact::<T>() ==> r == twice_sum(a, b, c, d),
{
    lane::<T>(2) * (a * b + c * d)
}

/// `2 (a b - c d)`.
fn twice_difference_of<T: Lane>(a: T, b: T, c: T, d: T) -> (r: T)
    requires
        sound::<T>(),
        twice_difference_req(a, b, c, d),
    ensures
        exact::<T>() ==> r == twice_difference(a, b, c, d),
{
    lane::<T>(2) * (a * b - c * d)
}

/// `1 - 2 (a a + b b)`.
fn one_less_twice_squares_of<T: Lane>(a: T, b: T) -> (r: T)
    requires
        sound::<T>(),
        one_less_twice_squares_req(a, b),
    ensures
        exact::<T>() ==> r == one_less_twice_squares(a, b),
{
    lane::<T>(1) - twice_sum_of(a, a, b, b)
}

impl<T: Lane> Transform<T> {
    /// The transform that changes nothing.
    pub open spec fn identity_spec() -> Transform<T> {
        Transform { matrix: Matrix::identity_spec(), inverse: Matrix::identity_spec() }
    }

    /// The transform that changes nothing.
    pub fn identity() -> (r: Transform<T>)
        ensures
            exact::<T>() ==> r == Self::identity_spec(),
    {
        Transform { matrix: Matrix::identity(), inverse: Matrix::identity() }
    }

    /// The row (0, 0, 0, 1).
    pub open spec fn last_row() -> Vector<T> {
        Vector { x: lit::<T>(0), y: lit::<T>(0), z: lit::<T>(0), w: lit::<T>(1) }
    }

    /// The translation by `dir`: the identity matrix with `dir` added to its
    /// last row, and as its inverse the same with the negation of `dir`.
    pub open spec fn translate_spec(dir: Direction<T>) -> Transform<T> {
        let i = Matrix::<T>::identity_spec();
        Transform {
            matrix: Matrix { r0: i.r0, r1: i.r1, r2: i.r2, r3: dir.0.sum(Self::last_row()) },
            inverse: Matrix {
                r0: i.r0,
                r1: i.r1,
                r2: i.r2,
                r3: dir.0.negated().sum(Self::last_row()),
            },
        }
    }

    /// Each step of `translate_spec` is defined.
    pub open spec fn translate_req(dir: Direction<T>) -> bool {
        &&& dir.0.sum_req(Self::last_row())
        &&& dir.0.negated_req()
        &&& dir.0.negated().sum_req(Self::last_row())
    }

    /// The translation by `dir`.
    pub fn translate(dir: Direction<T>) -> (r: Transform<T>)
        requires
            sound::<T>(),
            Self::translate_req(dir),
        ensures
            exact::<T>() ==> r == Self::translate_spec(dir),
    {
        let o = lane::<T>(1);
        let z = lane::<T>(0);
        let last = Vector::new(z, z, z, o);
        Transform {
            matrix: Matrix::row_vectors(
                [
                    Vector::new(o, z, z, z),
                    Vector::new(z, o, z, z),
                    Vector::new(z, z, o, z),
                    dir.0 + last,
                ],
            ),
            inverse: Matrix::row_vectors(
                [
                    Vector::new(o, z, z, z),
                    Vector::new(z, o, z, z),
                    Vector::new(z, z, o, z),
                    dir.0.neg() + last,
                ],
            ),
        }
    }

    /// The diagonal matrix with `x`, `y`, `z` and one on the diagonal.
    pub open spec fn diagonal(x: T, y: T, z: T) -> Matrix<T> {
        let o = lit::<T>(1);
        let n = lit::<T>(0);
        Matrix {
            r0: Vector { x: x, y: n, z: n, w: n },
            r1: Vector { x: n, y: y, z: n, w: n },
            r2: Vector { x: n, y: n, z: z, w: n },
            r3: Vector { x: n, y: n, z: n, w: o },
        }
    }

    /// The scaling by the three coordinates of `scale`, each along its axis:
    /// the diagonal matrix of the coordinates, and as its inverse that of
    /// their reciprocals.
    pub open spec fn scale_spec(scale: Direction<T>) -> Transform<T> {
        let o = lit::<T>(1);
        Transform {
            matrix: Self::diagonal(scale.0.x, scale.0.y, scale.0.z),
            inverse: Self::diagonal(
                o.div_spec(scale.0.x),
                o.div_spec(scale.0.y),
                o.div_spec(scale.0.z),
            ),
        }
    }

    /// The three reciprocals of `scale_spec` are defined.
    pub open spec fn scale_req(scale: Direction<T>) -> bool {
        let o = lit::<T>(1);
        &&& o.div_req(scale.0.x)
        &&& o.div_req(scale.0.y)
        &&& o.div_req(scale.0.z)
    }

    /// The scaling by the three coordinates of `scale`. Nothing is tested:
    /// where division by zero is defined, a zero coordinate gives an inverse
    /// with what that division gives.
    pub fn scale(scale: Direction<T>) -> (r: Transform<T>)
        requires
            sound::<T>(),
            Self::scale_req(scale),
        ensures
            exact::<T>() ==> r == Self::scale_spec(scale),
    {
        let o = lane::<T>(1);
        let z = lane::<T>(0);
        let inv_x = o / scale.x();
        let inv_y = o / scale.y();
        let inv_z = o / scale.z();
        Transform {
            matrix: Matrix::rows(
                [[scale.x(), z, z, z], [z, scale.y(), z, z], [z, z, scale.z(), z], [z, z, z, o]],
            ),
            inverse: Matrix::rows(
                [[inv_x, z, z, z], [z, inv_y, z, z], [z, z, inv_z, z], [z, z, z, o]],
            ),
        }
    }

    /// The matrix of the rotation that the quaternion `x i + y j + z k + w`
    /// stands for, acting on row vectors.
    pub open spec fn rotation_matrix(x: T, y: T, z: T, w: T) -> Matrix<T> {
        let o = lit::<T>(1);
        let n = lit::<T>(0);
        Matrix {
            r0: Vector {
                x: one_less_twice_squares(y, z),
                y: twice_sum(x, y, z, w),
                z: twice_difference(x, z, y, w),
                w: n,
            },
            r1: Vector {
                x: twice_difference(x, y, z, w),
                y: one_less_twice_squares(x, z),
                z: twice_sum(y, z, x, w),
                w: n,
            },
            r2: Vector {
                x: twice_sum(x, z, y, w),
                y: twice_difference(y, z, x, w),
                z: one_less_twice_squares(x, y),
                w: n,
            },
            r3: Vector { x: n, y: n, z: n, w: o },
        }
    }

    /// Each step of `rotation_matrix` is defined.
    pub open spec fn rotation_matrix_req(x: T, y: T, z: T, w: T) -> bool {
        &&& one_less_twice_squares_req(y, z)
        &&& twice_sum_req(x, y, z, w)
        &&& twice_difference_req(x, z, y, w)
        &&& twice_difference_req(x, y, z, w)
        &&& one_less_twice_squares_req(x, z)
        &&& twice_sum_req(y, z, x, w)
        &&& twice_sum_req(x, z, y, w)
        &&& twice_difference_req(y, z, x, w)
        &&& one_less_twice_squares_req(x, y)
    }

    /// The rotation: its matrix, and as the inverse the transpose, which
    /// inverts the matrix of a rotation.
    pub open spec fn rotate_spec(rotation: Rotation<T>) -> Transform<T> {
        let q = rotation.0.0;
        let m = Self::rotation_matrix(q.x, q.y, q.z, q.w);
        Transform { matrix: m, inverse: m.transposed() }
    }

    /// The transform of a rotation.
    pub fn rotate(rotation: Rotation<T>) -> (r: Transform<T>)
        requires
            sound::<T>(),
            Self::rotation_matrix_req(
                rotation.0.0.x,
                rotation.0.0.y,
                rotation.0.0.z,
                rotation.0.0.w,
            ),
        ensures
            exact::<T>() ==> r == Self::rotate_spec(rotation),
            r.inverse == r.matrix.transposed(),
    {
        let x = rotation.0.x();
        let y = rotation.0.y();
        let z = rotation.0.z();
        let w = rotation.0.w();
        let o = lane::<T>(1);
        let n = lane::<T>(0);

        let matrix = Matrix::rows(
            [
                [
                    one_less_twice_squares_of(y, z),
                    twice_sum_of(x, y, z, w),
                    twice_difference_of(x, z, y, w),
                    n,
                ],
                [
                    twice_difference_of(x, y, z, w),
                    one_less_twice_squares_of(x, z),
                    twice_sum_of(y, z, x, w),
                    n,
                ],
                [
                    twice_sum_of(x, z, y, w),
                    twice_difference_of(y, z, x, w),
                    one_less_twice_squares_of(x, y),
                    n,
                ],
                [n, n, n, o],
            ],
        );

        Transform { matrix, inverse: matrix.transpose() }
    }

    /// The transform with the two matrices exchanged.
    pub open spec fn inverted(self) -> Transform<T> {
        Transform { matrix: self.inverse, inverse: self.matrix }
    }

    /// The inverse transform, by exchanging the two matrices.
    pub fn inverse(&self) -> (r: Transform<T>)
        ensures
            r == self.inverted(),
    {
        Transform { matrix: self.inverse, inverse: self.matrix }
    }

    /// The composition, `self` first: the product of the matrices, and as
    /// its inverse the product of the inverses in the opposite order.
    pub open spec fn composed(self, rhs: Transform<T>) -> Transform<T> {
        Transform {
            matrix: self.matrix.product(rhs.matrix),
            inverse: rhs.inverse.product(self.inverse),
        }
    }

    /// The arithmetic of `T` can be chained, and each step of `composed` is
    /// defined.
    pub open spec fn composed_req(self, rhs: Transform<T>) -> bool {
        &&& self.matrix.product_req(rhs.matrix)
        &&& rhs.inverse.product_req(self.inverse)
    }
}

/// Inverting a transform twice gives it back.
pub proof fn lemma_inverse_involution<T: Lane>(t: Transform<T>)
    ensures
        t.inverted().inverted() == t,
{
}

impl<T: Lane> Default for Transform<T> {
    /// The transform that changes nothing.
    fn default() -> (r: Transform<T>)
        ensures
            exact::<T>() ==> r == Transform::<T>::identity_spec(),
    {
        Transform::identity()
    }
}

impl<T: Lane> Mul for Transform<T> {
    type Output = Transform<T>;

    /// The composition of two transforms, `self` first.
    /// Asks for `self.composed_req(rhs)`.
    fn mul(self, rhs: Transform<T>) -> (r: Transform<T>)
        ensures
            exact::<T>() ==> r == self.composed(rhs),
    {
        Transform { matrix: self.matrix * rhs.matrix, inverse: rhs.inverse * self.inverse }
    }
}

impl<T: Lane> vstd::std_specs::ops::MulSpecImpl for Transform<T> {
    open spec fn obeys_mul_spec() -> bool {
        exact::<T>()
    }

    open spec fn mul_req(self, rhs: Transform<T>) -> bool {
        self.composed_req(rhs)
    }

    open spec fn mul_spec(self, rhs: Transform<T>) -> Transform<T> {
        self.composed(rhs)
    }
}

impl<T: Lane> MulAssign for Transform<T> {
    /// Composes the transform with `rhs`, `rhs` last.
    fn mul_assign(&mut self, rhs: Transform<T>)
        requires
            old(self).composed_req(rhs),
        ensures
            exact::<T>() ==> *final(self) == old(self).composed(rhs),
    {
        *self = *self * rhs;
    }
}

} // verus!
