//! Directions in 3D space.

use crate::base::vector::Vector;
use crate::lane::{exact, lane, lit, sound, Lane};
use crate::normal::Normal;
use crate::transform::Transform;
use core::ops::{Add, AddAssign, Div, DivAssign, Mul, MulAssign, Neg, Sub, SubAssign};
use vstd::prelude::*;
use vstd::std_specs::cmp::PartialEqSpec;
use vstd::std_specs::ops::{AddSpec, DivSpec, MulSpec, NegSpec, SubSpec};

verus! {

/// A direction in 3D space: a vector whose lane 3 is zero, so that the
/// translation of an affine transform leaves it alone.
#[derive(Clone, Copy, Debug)]
pub struct Direction<T>(pub Vector<T>);

impl<T: PartialEq> Direction<T> {
    /// Each lane of `self` equals the same lane of `other`, as the lane type
    /// compares.
    pub open spec fn same_lanes(self, other: Direction<T>) -> bool {
        self.0.same_lanes(other.0)
    }
}

impl<T: PartialEq> PartialEq for Direction<T> {
    /// Whether the two directions are equal lane by lane.
    fn eq(&self, other: &Direction<T>) -> (r: bool)
        ensures
            T::obeys_eq_spec() ==> r == self.same_lanes(*other),
    {
        self.0 == other.0
    }
}

impl<T: PartialEq> vstd::std_specs::cmp::PartialEqSpecImpl for Direction<T> {
    open spec fn obeys_eq_spec() -> bool {
        T::obeys_eq_spec()
    }

    open spec fn eq_spec(&self, other: &Direction<T>) -> bool {
        self.same_lanes(*other)
    }
}

impl<T: Copy> Direction<T> {
    /// The `x` coordinate.
    pub fn x(self) -> (r: T)
        ensures
            r == self.0.x,
    {
        self.0.x()
    }

    /// The `y` coordinate.
    pub fn y(self) -> (r: T)
        ensures
            r == self.0.y,
    {
        self.0.y()
    }

    /// The `z` coordinate.
    pub fn z(self) -> (r: T)
        ensures
            r == self.0.z,
    {
        self.0.z()
    }

    /// Replaces the `x` coordinate and leaves the rest as it is.
    pub fn set_x(&mut self, val: T)
        ensures
            final(self).0 == (Vector {
                x: val,
                y: old(self).0.y,
                z: old(self).0.z,
                w: old(self).0.w,
            }),
    {
        self.0.set_x(val)
    }

    /// Replaces the `y` coordinate and leaves the rest as it is.
    pub fn set_y(&mut self, val: T)
        ensures
            final(self).0 == (Vector {
                x: old(self).0.x,
                y: val,
                z: old(self).0.z,
                w: old(self).0.w,
            }),
    {
        self.0.set_y(val)
    }

    /// Replaces the `z` coordinate and leaves the rest as it is.
    pub fn set_z(&mut self, val: T)
        ensures
            final(self).0 == (Vector {
                x: old(self).0.x,
                y: old(self).0.y,
                z: val,
                w: old(self).0.w,
            }),
    {
        self.0.set_z(val)
    }

    /// Permutes the three coordinates and keeps lane 3: coordinate 0 of the
    /// result is lane `X` of the direction, coordinate 1 is lane `Y` and
    /// coordinate 2 is lane `Z`.
    pub fn shuffle<const X: u32, const Y: u32, const Z: u32>(self) -> (r: Direction<T>)
        requires
            X < 4,
            Y < 4,
            Z < 4,
        ensures
            r.0 == self.0.shuffled(X as int, Y as int, Z as int, 3),
    {
        Direction(self.0.shuffle::<X, Y, Z, 3>())
    }
}

impl<T: Lane> Direction<T> {
    /// The direction with the coordinates `x`, `y` and `z`.
    pub open spec fn at(x: T, y: T, z: T) -> Direction<T> {
        Direction(Vector { x, y, z, w: lit::<T>(0) })
    }

    /// The direction with the coordinates `x`, `y` and `z`; lane 3 is zero.
    pub fn new(x: T, y: T, z: T) -> (r: Direction<T>)
        ensures
            r.0.x == x,
            r.0.y == y,
            r.0.z == z,
            exact::<T>() ==> r == Self::at(x, y, z),
    {
        Direction(Vector::new(x, y, z, lane::<T>(0)))
    }

    /// The lane-wise sum.
    pub open spec fn sum(self, rhs: Direction<T>) -> Direction<T> {
        Direction(self.0.sum(rhs.0))
    }

    /// Each addition of `sum` is defined.
    pub open spec fn sum_req(self, rhs: Direction<T>) -> bool {
        self.0.sum_req(rhs.0)
    }

    /// The lane-wise difference.
    pub open spec fn difference(self, rhs: Direction<T>) -> Direction<T> {
        Direction(self.0.difference(rhs.0))
    }

    /// Each subtraction of `difference` is defined.
    pub open spec fn difference_req(self, rhs: Direction<T>) -> bool {
        self.0.difference_req(rhs.0)
    }

    /// Each lane times the scalar `s`.
    pub open spec fn scaled(self, s: T) -> Direction<T> {
        Direction(self.0.scaled(s))
    }

    /// Each multiplication of `scaled` is defined.
    pub open spec fn scaled_req(self, s: T) -> bool {
        self.0.scaled_req(s)
    }

    /// Each lane divided by the scalar `s`.
    pub open spec fn shrunk(self, s: T) -> Direction<T> {
        Direction(self.0.shrunk(s))
    }

    /// Each division of `shrunk` is defined.
    pub open spec fn shrunk_req(self, s: T) -> bool {
        self.0.shrunk_req(s)
    }

    /// The lane-wise negation.
    pub open spec fn negated(self) -> Direction<T> {
        Direction(self.0.negated())
    }

    /// Each negation of `negated` is defined.
    pub open spec fn negated_req(self) -> bool {
        self.0.negated_req()
    }

    /// The direction as a row vector, times the matrix of the transform.
    pub open spec fn transformed(self, t: Transform<T>) -> Direction<T> {
        Direction(self.0.times_matrix(t.matrix))
    }

    /// The arithmetic of `T` can be chained, and each step of `transformed`
    /// is defined.
    pub open spec fn transformed_req(self, t: Transform<T>) -> bool {
        self.0.times_matrix_req(t.matrix)
    }

    /// The square of the length.
    pub fn length_square(self) -> (r: T)
        requires
            sound::<T>(),
            Vector::dot_req(self.0, self.0),
        ensures
            exact::<T>() ==> r == Vector::dot_spec(self.0, self.0),
    {
        self.0.length_square()
    }

    /// The dot product.
    pub fn dot(lhs: Direction<T>, rhs: Direction<T>) -> (r: T)
        requires
            sound::<T>(),
            Vector::dot_req(lhs.0, rhs.0),
        ensures
            exact::<T>() ==> r == Vector::dot_spec(lhs.0, rhs.0),
    {
        Vector::dot(lhs.0, rhs.0)
    }

    /// The cross product.
    pub fn cross(lhs: Direction<T>, rhs: Direction<T>) -> (r: Direction<T>)
        requires
            sound::<T>(),
            Vector::cross_req(lhs.0, rhs.0),
        ensures
            exact::<T>() ==> r.0 == Vector::cross_spec(lhs.0, rhs.0),
    {
        Direction(Vector::cross(lhs.0, rhs.0))
    }

    /// Linear interpolation from `from` to `to` by the factor `t`.
    pub fn lerp(from: Direction<T>, to: Direction<T>, t: T) -> (r: Direction<T>)
        requires
            sound::<T>(),
            Vector::lerp_req(from.0, to.0, t),
        ensures
            exact::<T>() ==> r.0 == Vector::lerp_spec(from.0, to.0, t),
    {
        Direction(Vector::lerp(from.0, to.0, t))
    }
}

impl<T: Lane> Default for Direction<T> {
    /// The direction whose three coordinates are zero.
    fn default() -> (r: Direction<T>)
        ensures
            exact::<T>() ==> r == Direction::<T>::at(lit::<T>(0), lit::<T>(0), lit::<T>(0)),
    {
        let z = lane::<T>(0);
        Direction(Vector::new(z, z, z, lane::<T>(0)))
    }
}

impl<T: Lane> Add for Direction<T> {
    type Output = Direction<T>;

    /// The lane-wise sum.
    /// Asks for `self.sum_req(rhs)`.
    fn add(self, rhs: Direction<T>) -> (r: Direction<T>)
        ensures
            T::obeys_add_spec() ==> r == self.sum(rhs),
    {
        Direction(self.0 + rhs.0)
    }
}

impl<T: Lane> vstd::std_specs::ops::AddSpecImpl for Direction<T> {
    open spec fn obeys_add_spec() -> bool {
        T::obeys_add_spec()
    }

    open spec fn add_req(self, rhs: Direction<T>) -> bool {
        self.sum_req(rhs)
    }

    open spec fn add_spec(self, rhs: Direction<T>) -> Direction<T> {
        self.sum(rhs)
    }
}

impl<T: Lane> AddAssign for Direction<T> {
    /// Adds `rhs` to the direction.
    fn add_assign(&mut self, rhs: Direction<T>)
        requires
            old(self).sum_req(rhs),
        ensures
            T::obeys_add_spec() ==> *final(self) == old(self).sum(rhs),
    {
        *self = *self + rhs;
    }
}

impl<T: Lane> Sub for Direction<T> {
    type Output = Direction<T>;

    /// The lane-wise difference.
    /// Asks for `self.difference_req(rhs)`.
    fn sub(self, rhs: Direction<T>) -> (r: Direction<T>)
        ensures
            T::obeys_sub_spec() ==> r == self.difference(rhs),
    {
        Direction(self.0 - rhs.0)
    }
}

impl<T: Lane> vstd::std_specs::ops::SubSpecImpl for Direction<T> {
    open spec fn obeys_sub_spec() -> bool {
        T::obeys_sub_spec()
    }

    open spec fn sub_req(self, rhs: Direction<T>) -> bool {
        self.difference_req(rhs)
    }

    open spec fn sub_spec(self, rhs: Direction<T>) -> Direction<T> {
        self.difference(rhs)
    }
}

impl<T: Lane> SubAssign for Direction<T> {
    /// Subtracts `rhs` from the direction.
    fn sub_assign(&mut self, rhs: Direction<T>)
        requires
            old(self).difference_req(rhs),
        ensures
            T::obeys_sub_spec() ==> *final(self) == old(self).difference(rhs),
    {
        *self = *self - rhs;
    }
}

impl<T: Lane> Mul<T> for Direction<T> {
    type Output = Direction<T>;

    /// Each lane times the scalar `rhs`.
    /// Asks for `self.scaled_req(rhs)`.
    fn mul(self, rhs: T) -> (r: Direction<T>)
        ensures
            T::obeys_mul_spec() ==> r == self.scaled(rhs),
    {
        Direction(self.0 * rhs)
    }
}

impl<T: Lane> vstd::std_specs::ops::MulSpecImpl<T> for Direction<T> {
    open spec fn obeys_mul_spec() -> bool {
        T::obeys_mul_spec()
    }

    open spec fn mul_req(self, rhs: T) -> bool {
        self.scaled_req(rhs)
    }

    open spec fn mul_spec(self, rhs: T) -> Direction<T> {
        self.scaled(rhs)
    }
}

impl<T: Lane> MulAssign<T> for Direction<T> {
    /// Multiplies each lane by the scalar `rhs`.
    fn mul_assign(&mut self, rhs: T)
        requires
            old(self).scaled_req(rhs),
        ensures
            T::obeys_mul_spec() ==> *final(self) == old(self).scaled(rhs),
    {
        *self = *self * rhs;
    }
}

impl<T: Lane> Div<T> for Direction<T> {
    type Output = Direction<T>;

    /// Each lane divided by the scalar `rhs`.
    /// Asks for `self.shrunk_req(rhs)`.
    fn div(self, rhs: T) -> (r: Direction<T>)
        ensures
            T::obeys_div_spec() ==> r == self.shrunk(rhs),
    {
        Direction(self.0 / rhs)
    }
}

impl<T: Lane> vstd::std_specs::ops::DivSpecImpl<T> for Direction<T> {
    open spec fn obeys_div_spec() -> bool {
        T::obeys_div_spec()
    }

    open spec fn div_req(self, rhs: T) -> bool {
        self.shrunk_req(rhs)
    }

    open spec fn div_spec(self, rhs: T) -> Direction<T> {
        self.shrunk(rhs)
    }
}

impl<T: Lane> DivAssign<T> for Direction<T> {
    /// Divides each lane by the scalar `rhs`.
    fn div_assign(&mut self, rhs: T)
        requires
            old(self).shrunk_req(rhs),
        ensures
            T::obeys_div_spec() ==> *final(self) == old(self).shrunk(rhs),
    {
        *self = *self / rhs;
    }
}

impl<T: Lane> Neg for Direction<T> {
    type Output = Direction<T>;

    /// The lane-wise negation.
    /// Asks for `self.negated_req()`.
    fn neg(self) -> (r: Direction<T>)
        ensures
            T::obeys_neg_spec() ==> r == self.negated(),
    {
        Direction(self.0.neg())
    }
}

impl<T: Lane> vstd::std_specs::ops::NegSpecImpl for Direction<T> {
    open spec fn obeys_neg_spec() -> bool {
        T::obeys_neg_spec()
    }

    open spec fn neg_req(self) -> bool {
        self.negated_req()
    }

    open spec fn neg_spec(self) -> Direction<T> {
        self.negated()
    }
}

impl<T: Lane> Mul<Transform<T>> for Direction<T> {
    type Output = Direction<T>;

    /// The direction carried through the transform: as a row vector, times
    /// the matrix of the transform.
    /// Asks for `self.transformed_req(rhs)`.
    fn mul(self, rhs: Transform<T>) -> (r: Direction<T>)
        ensures
            exact::<T>() ==> r == self.transformed(rhs),
    {
        Direction(self.0 * rhs.matrix)
    }
}

impl<T: Lane> vstd::std_specs::ops::MulSpecImpl<Transform<T>> for Direction<T> {
    open spec fn obeys_mul_spec() -> bool {
        exact::<T>()
    }

    open spec fn mul_req(self, rhs: Transform<T>) -> bool {
        self.transformed_req(rhs)
    }

    open spec fn mul_spec(self, rhs: Transform<T>) -> Direction<T> {
        self.transformed(rhs)
    }
}

impl<T: Lane> MulAssign<Transform<T>> for Direction<T> {
    /// Carries the direction through the transform.
    fn mul_assign(&mut self, rhs: Transform<T>)
        requires
            old(self).transformed_req(rhs),
        ensures
            exact::<T>() ==> *final(self) == old(self).transformed(rhs),
    {
        *self = *self * rhs;
    }
}

impl<T> From<Normal<T>> for Direction<T> {
    /// The direction that a normal points in.
    fn from(val: Normal<T>) -> (r: Direction<T>)
        ensures
            r == Direction(val.0),
    {
        Direction(val.0)
    }
}

impl<T> vstd::std_specs::convert::FromSpecImpl<Normal<T>> for Direction<T> {
    open spec fn obeys_from_spec() -> bool {
        true
    }

    open spec fn from_spec(val: Normal<T>) -> Direction<T> {
        Direction(val.0)
    }
}

} // verus!
