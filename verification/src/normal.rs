//! Surface normals.

use crate::base::vector::Vector;
use crate::direction::Direction;
use crate::lane::{exact, exact_ordered, lane, lit, sound, sound_ordered, Lane};
use crate::transform::Transform;
use core::ops::{Add, AddAssign, Div, DivAssign, Mul, MulAssign, Neg, Sub, SubAssign};
use vstd::prelude::*;
use vstd::std_specs::cmp::{PartialEqSpec, PartialOrdIs, PartialOrdSpec};
use vstd::std_specs::ops::{AddSpec, DivSpec, MulSpec, NegSpec, SubSpec};

verus! {

/// A surface normal: a direction that an affine transform carries by the
/// transpose of its inverse matrix. It need not have length one.
#[derive(Clone, Copy, Debug)]
pub struct Normal<T>(pub Vector<T>);

impl<T: PartialEq> Normal<T> {
    /// Each lane of `self` equals the same lane of `other`, as the lane type
    /// compares.
    pub open spec fn same_lanes(self, other: Normal<T>) -> bool {
        self.0.same_lanes(other.0)
    }
}

impl<T: PartialEq> PartialEq for Normal<T> {
    /// Whether the two normals are equal lane by lane.
    fn eq(&self, other: &Normal<T>) -> (r: bool)
        ensures
            T::obeys_eq_spec() ==> r == self.same_lanes(*other),
    {
        self.0 == other.0
    }
}

impl<T: PartialEq> vstd::std_specs::cmp::PartialEqSpecImpl for Normal<T> {
    open spec fn obeys_eq_spec() -> bool {
        T::obeys_eq_spec()
    }

    open spec fn eq_spec(&self, other: &Normal<T>) -> bool {
        self.same_lanes(*other)
    }
}

impl<T: Copy> Normal<T> {
    /// The `x` coordinate.
    pub fn x(self) -> (r: T)
        ensures
            r == self.0.x,
    {
        self.0.x()
    }

    /// The `y` coordinate.
    pub fn y(self) -> (r: T)
        ensures
            r == self.0.y,
    {
        self.0.y()
    }

    /// The `z` coordinate.
    pub fn z(self) -> (r: T)
        ensures
            r == self.0.z,
    {
        self.0.z()
    }

    /// Replaces the `x` coordinate and leaves the rest as it is.
    pub fn set_x(&mut self, val: T)
        ensures
            final(self).0 == (Vector {
                x: val,
                y: old(self).0.y,
                z: old(self).0.z,
                w: old(self).0.w,
            }),
    {
        self.0.set_x(val)
    }

    /// Replaces the `y` coordinate and leaves the rest as it is.
    pub fn set_y(&mut self, val: T)
        ensures
            final(self).0 == (Vector {
                x: old(self).0.x,
                y: val,
                z: old(self).0.z,
                w: old(self).0.w,
            }),
    {
        self.0.set_y(val)
    }

    /// Replaces the `z` coordinate and leaves the rest as it is.
    pub fn set_z(&mut self, val: T)
        ensures
            final(self).0 == (Vector {
                x: old(self).0.x,
                y: old(self).0.y,
                z: val,
                w: old(self).0.w,
            }),
    {
        self.0.set_z(val)
    }

    /// Permutes the three coordinates and keeps lane 3: coordinate 0 of the
    /// result is lane `X` of the normal, coordinate 1 is lane `Y` and
    /// coordinate 2 is lane `Z`.
    pub fn shuffle<const X: u32, const Y: u32, const Z: u32>(self) -> (r: Normal<T>)
        requires
            X < 4,
            Y < 4,
            Z < 4,
        ensures
            r.0 == self.0.shuffled(X as int, Y as int, Z as int, 3),
    {
        Normal(self.0.shuffle::<X, Y, Z, 3>())
    }
}

impl<T: Lane> Normal<T> {
    /// The normal with the coordinates `x`, `y` and `z`.
    pub open spec fn at(x: T, y: T, z: T) -> Normal<T> {
        Normal(Vector { x, y, z, w: lit::<T>(0) })
    }

    /// The normal with the coordinates `x`, `y` and `z`; lane 3 is zero.
    pub fn new(x: T, y: T, z: T) -> (r: Normal<T>)
        ensures
            r.0.x == x,
            r.0.y == y,
            r.0.z == z,
            exact::<T>() ==> r == Self::at(x, y, z),
    {
        Normal(Vector::new(x, y, z, lane::<T>(0)))
    }

    /// The lane-wise sum.
    pub open spec fn sum(self, rhs: Normal<T>) -> Normal<T> {
        Normal(self.0.sum(rhs.0))
    }

    /// Each addition of `sum` is defined.
    pub open spec fn sum_req(self, rhs: Normal<T>) -> bool {
        self.0.sum_req(rhs.0)
    }

    /// The lane-wise difference.
    pub open spec fn difference(self, rhs: Normal<T>) -> Normal<T> {
        Normal(self.0.difference(rhs.0))
    }

    /// Each subtraction of `difference` is defined.
    pub open spec fn difference_req(self, rhs: Normal<T>) -> bool {
        self.0.difference_req(rhs.0)
    }

    /// Each lane times the scalar `s`.
    pub open spec fn scaled(self, s: T) -> Normal<T> {
        Normal(self.0.scaled(s))
    }

    /// Each multiplication of `scaled` is defined.
    pub open spec fn scaled_req(self, s: T) -> bool {
        self.0.scaled_req(s)
    }

    /// Each lane divided by the scalar `s`.
    pub open spec fn shrunk(self, s: T) -> Normal<T> {
        Normal(self.0.shrunk(s))
    }

    /// Each division of `shrunk` is defined.
    pub open spec fn shrunk_req(self, s: T) -> bool {
        self.0.shrunk_req(s)
    }

    /// The lane-wise negation.
    pub open spec fn negated(self) -> Normal<T> {
        Normal(self.0.negated())
    }

    /// Each negation of `negated` is defined.
    pub open spec fn negated_req(self) -> bool {
        self.0.negated_req()
    }

    /// The normal as a row vector, times the transpose of the inverse matrix of the transform.
    pub open spec fn transformed(self, t: Transform<T>) -> Normal<T> {
        Normal(self.0.times_matrix(t.inverse.transposed()))
    }

    /// The arithmetic of `T` can be chained, and each step of `transformed`
    /// is defined.
    pub open spec fn transformed_req(self, t: Transform<T>) -> bool {
        self.0.times_matrix_req(t.inverse.transposed())
    }

    /// The square of the length.
    pub fn length_square(self) -> (r: T)
        requires
            sound::<T>(),
            Vector::dot_req(self.0, self.0),
        ensures
            exact::<T>() ==> r == Vector::dot_spec(self.0, self.0),
    {
        self.0.length_square()
    }

    /// The dot product.
    pub fn dot(lhs: Normal<T>, rhs: Normal<T>) -> (r: T)
        requires
            sound::<T>(),
            Vector::dot_req(lhs.0, rhs.0),
        ensures
            exact::<T>() ==> r == Vector::dot_spec(lhs.0, rhs.0),
    {
        Vector::dot(lhs.0, rhs.0)
    }
}

impl<T: Lane> Default for Normal<T> {
    /// The normal whose three coordinates are zero.
    fn default() -> (r: Normal<T>)
        ensures
            exact::<T>() ==> r == Normal::<T>::at(lit::<T>(0), lit::<T>(0), lit::<T>(0)),
    {
        let z = lane::<T>(0);
        Normal(Vector::new(z, z, z, lane::<T>(0)))
    }
}

impl<T: Lane> Add for Normal<T> {
    type Output = Normal<T>;

    /// The lane-wise sum.
    /// Asks for `self.sum_req(rhs)`.
    fn add(self, rhs: Normal<T>) -> (r: Normal<T>)
        ensures
            T::obeys_add_spec() ==> r == self.sum(rhs),
    {
        Normal(self.0 + rhs.0)
    }
}

impl<T: Lane> vstd::std_specs::ops::AddSpecImpl for Normal<T> {
    open spec fn obeys_add_spec() -> bool {
        T::obeys_add_spec()
    }

    open spec fn add_req(self, rhs: Normal<T>) -> bool {
        self.sum_req(rhs)
    }

    open spec fn add_spec(self, rhs: Normal<T>) -> Normal<T> {
        self.sum(rhs)
    }
}

impl<T: Lane> AddAssign for Normal<T> {
    /// Adds `rhs` to the normal.
    fn add_assign(&mut self, rhs: Normal<T>)
        requires
            old(self).sum_req(rhs),
        ensures
            T::obeys_add_spec() ==> *final(self) == old(self).sum(rhs),
    {
        *self = *self + rhs;
    }
}

impl<T: Lane> Sub for Normal<T> {
    type Output = Normal<T>;

    /// The lane-wise difference.
    /// Asks for `self.difference_req(rhs)`.
    fn sub(self, rhs: Normal<T>) -> (r: Normal<T>)
        ensures
            T::obeys_sub_spec() ==> r == self.difference(rhs),
    {
        Normal(self.0 - rhs.0)
    }
}

impl<T: Lane> vstd::std_specs::ops::SubSpecImpl for Normal<T> {
    open spec fn obeys_sub_spec() -> bool {
        T::obeys_sub_spec()
    }

    open spec fn sub_req(self, rhs: Normal<T>) -> bool {
        self.difference_req(rhs)
    }

    open spec fn sub_spec(self, rhs: Normal<T>) -> Normal<T> {
        self.difference(rhs)
    }
}

impl<T: Lane> SubAssign for Normal<T> {
    /// Subtracts `rhs` from the normal.
    fn sub_assign(&mut self, rhs: Normal<T>)
        requires
            old(self).difference_req(rhs),
        ensures
            T::obeys_sub_spec() ==> *final(self) == old(self).difference(rhs),
    {
        *self = *self - rhs;
    }
}

impl<T: Lane> Mul<T> for Normal<T> {
    type Output = Normal<T>;

    /// Each lane times the scalar `rhs`.
    /// Asks for `self.scaled_req(rhs)`.
    fn mul(self, rhs: T) -> (r: Normal<T>)
        ensures
            T::obeys_mul_spec() ==> r == self.scaled(rhs),
    {
        Normal(self.0 * rhs)
    }
}

impl<T: Lane> vstd::std_specs::ops::MulSpecImpl<T> for Normal<T> {
    open spec fn obeys_mul_spec() -> bool {
        T::obeys_mul_spec()
    }

    open spec fn mul_req(self, rhs: T) -> bool {
        self.scaled_req(rhs)
    }

    open spec fn mul_spec(self, rhs: T) -> Normal<T> {
        self.scaled(rhs)
    }
}

impl<T: Lane> MulAssign<T> for Normal<T> {
    /// Multiplies each lane by the scalar `rhs`.
    fn mul_assign(&mut self, rhs: T)
        requires
            old(self).scaled_req(rhs),
        ensures
            T::obeys_mul_spec() ==> *final(self) == old(self).scaled(rhs),
    {
        *self = *self * rhs;
    }
}

impl<T: Lane> Div<T> for Normal<T> {
    type Output = Normal<T>;

    /// Each lane divided by the scalar `rhs`.
    /// Asks for `self.shrunk_req(rhs)`.
    fn div(self, rhs: T) -> (r: Normal<T>)
        ensures
            T::obeys_div_spec() ==> r == self.shrunk(rhs),
    {
        Normal(self.0 / rhs)
    }
}

impl<T: Lane> vstd::std_specs::ops::DivSpecImpl<T> for Normal<T> {
    open spec fn obeys_div_spec() -> bool {
        T::obeys_div_spec()
    }

    open spec fn div_req(self, rhs: T) -> bool {
        self.shrunk_req(rhs)
    }

    open spec fn div_spec(self, rhs: T) -> Normal<T> {
        self.shrunk(rhs)
    }
}

impl<T: Lane> DivAssign<T> for Normal<T> {
    /// Divides each lane by the scalar `rhs`.
    fn div_assign(&mut self, rhs: T)
        requires
            old(self).shrunk_req(rhs),
        ensures
            T::obeys_div_spec() ==> *final(self) == old(self).shrunk(rhs),
    {
        *self = *self / rhs;
    }
}

impl<T: Lane> Neg for Normal<T> {
    type Output = Normal<T>;

    /// The lane-wise negation.
    /// Asks for `self.negated_req()`.
    fn neg(self) -> (r: Normal<T>)
        ensures
            T::obeys_neg_spec() ==> r == self.negated(),
    {
        Normal(self.0.neg())
    }
}

impl<T: Lane> vstd::std_specs::ops::NegSpecImpl for Normal<T> {
    open spec fn obeys_neg_spec() -> bool {
        T::obeys_neg_spec()
    }

    open spec fn neg_req(self) -> bool {
        self.negated_req()
    }

    open spec fn neg_spec(self) -> Normal<T> {
        self.negated()
    }
}

impl<T: Lane> Mul<Transform<T>> for Normal<T> {
    type Output = Normal<T>;

    /// The normal carried through the transform: as a row vector, times the
    /// transpose of the inverse matrix of the transform.
    /// Asks for `self.transformed_req(rhs)`.
    fn mul(self, rhs: Transform<T>) -> (r: Normal<T>)
        ensures
            exact::<T>() ==> r == self.transformed(rhs),
    {
        Normal(self.0 * rhs.inverse.transpose())
    }
}

impl<T: Lane> vstd::std_specs::ops::MulSpecImpl<Transform<T>> for Normal<T> {
    open spec fn obeys_mul_spec() -> bool {
        exact::<T>()
    }

    open spec fn mul_req(self, rhs: Transform<T>) -> bool {
        self.transformed_req(rhs)
    }

    open spec fn mul_spec(self, rhs: Transform<T>) -> Normal<T> {
        self.transformed(rhs)
    }
}

impl<T: Lane> MulAssign<Transform<T>> for Normal<T> {
    /// Carries the normal through the transform.
    fn mul_assign(&mut self, rhs: Transform<T>)
        requires
            old(self).transformed_req(rhs),
        ensures
            exact::<T>() ==> *final(self) == old(self).transformed(rhs),
    {
        *self = *self * rhs;
    }
}

impl<T: Lane + PartialOrd> Normal<T> {
    /// The normal, or its negation where its dot product with `dir` is less
    /// than zero.
    pub open spec fn facing(self, dir: Direction<T>) -> Normal<T> {
        if Vector::dot_spec(self.0, dir.0).is_lt(&lit::<T>(0)) {
            self.negated()
        } else {
            self
        }
    }

    /// Each step of the dot product with `dir` is defined, and so is the
    /// negation where `facing` takes it.
    pub open spec fn facing_req(self, dir: Direction<T>) -> bool {
        &&& Vector::dot_req(self.0, dir.0)
        &&& Vector::dot_spec(self.0, dir.0).is_lt(&lit::<T>(0)) ==> self.negated_req()
    }

    /// Flips the normal where it lies in the hemisphere opposite to `dir`.
    pub fn in_hemisphere(self, dir: Direction<T>) -> (r: Normal<T>)
        requires
            sound_ordered::<T>(),
            self.facing_req(dir),
        ensures
            exact_ordered::<T>() ==> r == self.facing(dir),
    {
        if Direction::dot(Direction::from(self), dir) < lane::<T>(0) {
            self.neg()
        } else {
            self
        }
    }
}

} // verus!
