//! Points in 3D space.

use crate::base::vector::Vector;
use crate::direction::Direction;
use crate::lane::{exact, lane, lit, sound, Lane};
use crate::transform::Transform;
use core::ops::{Add, AddAssign, Mul, MulAssign, Sub, SubAssign};
use vstd::prelude::*;
use vstd::std_specs::cmp::PartialEqSpec;
use vstd::std_specs::ops::{AddSpec, MulSpec, SubSpec};

verus! {

/// A point in 3D space: a vector whose lane 3 is one, so that the
/// translation of an affine transform moves it.
#[derive(Clone, Copy, Debug)]
pub struct Point<T>(pub Vector<T>);

impl<T: PartialEq> Point<T> {
    /// Each lane of `self` equals the same lane of `other`, as the lane type
    /// compares.
    pub open spec fn same_lanes(self, other: Point<T>) -> bool {
        self.0.same_lanes(other.0)
    }
}

impl<T: PartialEq> PartialEq for Point<T> {
    /// Whether the two points are equal lane by lane.
    fn eq(&self, other: &Point<T>) -> (r: bool)
        ensures
            T::obeys_eq_spec() ==> r == self.same_lanes(*other),
    {
        self.0 == other.0
    }
}

impl<T: PartialEq> vstd::std_specs::cmp::PartialEqSpecImpl for Point<T> {
    open spec fn obeys_eq_spec() -> bool {
        T::obeys_eq_spec()
    }

    open spec fn eq_spec(&self, other: &Point<T>) -> bool {
        self.same_lanes(*other)
    }
}

impl<T: Copy> Point<T> {
    /// The `x` coordinate.
    pub fn x(self) -> (r: T)
        ensures
            r == self.0.x,
    {
        self.0.x()
    }

    /// The `y` coordinate.
    pub fn y(self) -> (r: T)
        ensures
            r == self.0.y,
    {
        self.0.y()
    }

    /// The `z` coordinate.
    pub fn z(self) -> (r: T)
        ensures
            r == self.0.z,
    {
        self.0.z()
    }

    /// Replaces the `x` coordinate and leaves the rest as it is.
    pub fn set_x(&mut self, val: T)
        ensures
            final(self).0 == (Vector {
                x: val,
                y: old(self).0.y,
                z: old(self).0.z,
                w: old(self).0.w,
            }),
    {
        self.0.set_x(val)
    }

    /// Replaces the `y` coordinate and leaves the rest as it is.
    pub fn set_y(&mut self, val: T)
        ensures
            final(self).0 == (Vector {
                x: old(self).0.x,
                y: val,
                z: old(self).0.z,
                w: old(self).0.w,
            }),
    {
        self.0.set_y(val)
    }

    /// Replaces the `z` coordinate and leaves the rest as it is.
    pub fn set_z(&mut self, val: T)
        ensures
            final(self).0 == (Vector {
                x: old(self).0.x,
                y: old(self).0.y,
                z: val,
                w: old(self).0.w,
            }),
    {
        self.0.set_z(val)
    }

    /// Permutes the three coordinates and keeps lane 3: coordinate 0 of the
    /// result is lane `X` of the point, coordinate 1 is lane `Y` and
    /// coordinate 2 is lane `Z`.
    pub fn shuffle<const X: u32, const Y: u32, const Z: u32>(self) -> (r: Point<T>)
        requires
            X < 4,
            Y < 4,
            Z < 4,
        ensures
            r.0 == self.0.shuffled(X as int, Y as int, Z as int, 3),
    {
        Point(self.0.shuffle::<X, Y, Z, 3>())
    }
}

impl<T: Lane> Point<T> {
    /// The point with the coordinates `x`, `y` and `z`.
    pub open spec fn at(x: T, y: T, z: T) -> Point<T> {
        Point(Vector { x, y, z, w: lit::<T>(1) })
    }

    /// The point with the coordinates `x`, `y` and `z`; lane 3 is one.
    pub fn new(x: T, y: T, z: T) -> (r: Point<T>)
        ensures
            r.0.x == x,
            r.0.y == y,
            r.0.z == z,
            exact::<T>() ==> r == Self::at(x, y, z),
    {
        Point(Vector::new(x, y, z, lane::<T>(1)))
    }

    /// The point moved along `rhs`: the lane-wise sum.
    pub open spec fn moved(self, rhs: Direction<T>) -> Point<T> {
        Point(self.0.sum(rhs.0))
    }

    /// Each addition of `moved` is defined.
    pub open spec fn moved_req(self, rhs: Direction<T>) -> bool {
        self.0.sum_req(rhs.0)
    }

    /// The point moved against `rhs`: the lane-wise difference.
    pub open spec fn moved_back(self, rhs: Direction<T>) -> Point<T> {
        Point(self.0.difference(rhs.0))
    }

    /// Each subtraction of `moved_back` is defined.
    pub open spec fn moved_back_req(self, rhs: Direction<T>) -> bool {
        self.0.difference_req(rhs.0)
    }

    /// The direction from `rhs` to the point: the lane-wise difference.
    pub open spec fn offset_from(self, rhs: Point<T>) -> Direction<T> {
        Direction(self.0.difference(rhs.0))
    }

    /// Each subtraction of `offset_from` is defined.
    pub open spec fn offset_from_req(self, rhs: Point<T>) -> bool {
        self.0.difference_req(rhs.0)
    }

    /// The point as a row vector, times the matrix of the transform.
    pub open spec fn transformed(self, t: Transform<T>) -> Point<T> {
        Point(self.0.times_matrix(t.matrix))
    }

    /// The arithmetic of `T` can be chained, and each step of `transformed`
    /// is defined.
    pub open spec fn transformed_req(self, t: Transform<T>) -> bool {
        self.0.times_matrix_req(t.matrix)
    }

    /// Linear interpolation from `from` to `to` by the factor `t`.
    pub fn lerp(from: Point<T>, to: Point<T>, t: T) -> (r: Point<T>)
        requires
            sound::<T>(),
            Vector::lerp_req(from.0, to.0, t),
        ensures
            exact::<T>() ==> r.0 == Vector::lerp_spec(from.0, to.0, t),
    {
        Point(Vector::lerp(from.0, to.0, t))
    }
}

impl<T: Lane> Default for Point<T> {
    /// The point whose three coordinates are zero.
    fn default() -> (r: Point<T>)
        ensures
            exact::<T>() ==> r == Point::<T>::at(lit::<T>(0), lit::<T>(0), lit::<T>(0)),
    {
        let z = lane::<T>(0);
        Point(Vector::new(z, z, z, lane::<T>(1)))
    }
}

impl<T: Lane> Add<Direction<T>> for Point<T> {
    type Output = Point<T>;

    /// The point moved along `rhs`.
    /// Asks for `self.moved_req(rhs)`.
    fn add(self, rhs: Direction<T>) -> (r: Point<T>)
        ensures
            T::obeys_add_spec() ==> r == self.moved(rhs),
    {
        Point(self.0 + rhs.0)
    }
}

impl<T: Lane> vstd::std_specs::ops::AddSpecImpl<Direction<T>> for Point<T> {
    open spec fn obeys_add_spec() -> bool {
        T::obeys_add_spec()
    }

    open spec fn add_req(self, rhs: Direction<T>) -> bool {
        self.moved_req(rhs)
    }

    open spec fn add_spec(self, rhs: Direction<T>) -> Point<T> {
        self.moved(rhs)
    }
}

impl<T: Lane> AddAssign<Direction<T>> for Point<T> {
    /// Moves the point along `rhs`.
    fn add_assign(&mut self, rhs: Direction<T>)
        requires
            old(self).moved_req(rhs),
        ensures
            T::obeys_add_spec() ==> *final(self) == old(self).moved(rhs),
    {
        *self = *self + rhs;
    }
}

impl<T: Lane> Sub<Direction<T>> for Point<T> {
    type Output = Point<T>;

    /// The point moved against `rhs`.
    /// Asks for `self.moved_back_req(rhs)`.
    fn sub(self, rhs: Direction<T>) -> (r: Point<T>)
        ensures
            T::obeys_sub_spec() ==> r == self.moved_back(rhs),
    {
        Point(self.0 - rhs.0)
    }
}

impl<T: Lane> vstd::std_specs::ops::SubSpecImpl<Direction<T>> for Point<T> {
    open spec fn obeys_sub_spec() -> bool {
        T::obeys_sub_spec()
    }

    open spec fn sub_req(self, rhs: Direction<T>) -> bool {
        self.moved_back_req(rhs)
    }

    open spec fn sub_spec(self, rhs: Direction<T>) -> Point<T> {
        self.moved_back(rhs)
    }
}

impl<T: Lane> SubAssign<Direction<T>> for Point<T> {
    /// Moves the point against `rhs`.
    fn sub_assign(&mut self, rhs: Direction<T>)
        requires
            old(self).moved_back_req(rhs),
        ensures
            T::obeys_sub_spec() ==> *final(self) == old(self).moved_back(rhs),
    {
        *self = *self - rhs;
    }
}

impl<T: Lane> Sub for Point<T> {
    type Output = Direction<T>;

    /// The direction from `rhs` to the point.
    /// Asks for `self.offset_from_req(rhs)`.
    fn sub(self, rhs: Point<T>) -> (r: Direction<T>)
        ensures
            T::obeys_sub_spec() ==> r == self.offset_from(rhs),
    {
        Direction(self.0 - rhs.0)
    }
}

impl<T: Lane> vstd::std_specs::ops::SubSpecImpl for Point<T> {
    open spec fn obeys_sub_spec() -> bool {
        T::obeys_sub_spec()
    }

    open spec fn sub_req(self, rhs: Point<T>) -> bool {
        self.offset_from_req(rhs)
    }

    open spec fn sub_spec(self, rhs: Point<T>) -> Direction<T> {
        self.offset_from(rhs)
    }
}

impl<T: Lane> Mul<Transform<T>> for Point<T> {
    type Output = Point<T>;

    /// The point carried through the transform: as a row vector, times the matrix of the transform.
    /// Asks for `self.transformed_req(rhs)`.
    fn mul(self, rhs: Transform<T>) -> (r: Point<T>)
        ensures
            exact::<T>() ==> r == self.transformed(rhs),
    {
        Point(self.0 * rhs.matrix)
    }
}

impl<T: Lane> vstd::std_specs::ops::MulSpecImpl<Transform<T>> for Point<T> {
    open spec fn obeys_mul_spec() -> bool {
        exact::<T>()
    }

    open spec fn mul_req(self, rhs: Transform<T>) -> bool {
        self.transformed_req(rhs)
    }

    open spec fn mul_spec(self, rhs: Transform<T>) -> Point<T> {
        self.transformed(rhs)
    }
}

impl<T: Lane> MulAssign<Transform<T>> for Point<T> {
    /// Carries the point through the transform.
    fn mul_assign(&mut self, rhs: Transform<T>)
        requires
            old(self).transformed_req(rhs),
        ensures
            exact::<T>() ==> *final(self) == old(self).transformed(rhs),
    {
        *self = *self * rhs;
    }
}

} // verus!
