//! Four-lane vectors.

use crate::lane::{exact, exact_ordered, lane, lit, sound, sound_ordered, Lane};
use core::ops::{Add, Div, Mul, Neg, Sub};
use vstd::prelude::*;
use vstd::std_specs::cmp::{PartialEqSpec, PartialOrdIs, PartialOrdSpec};
use vstd::std_specs::ops::{AddSpec, DivSpec, MulSpec, NegSpec, SubSpec};

verus! {

/// Vouches for four lane indices, once and for all callers that go through
/// it: the call is only accepted where each index names one of the four lanes.
pub fn shuffle_args(x: u32, y: u32, z: u32, w: u32) -> (r: usize)
    requires
        x < 4,
        y < 4,
        z < 4,
        w < 4,
    ensures
        r == 1,
{
    1
}

/// A four-lane row vector. Lane 0 is `x`, lane 1 is `y`, lane 2 is `z` and
/// lane 3 is `w`.
#[derive(Clone, Copy, Debug)]
pub struct Vector<T> {
    pub x: T,
    pub y: T,
    pub z: T,
    pub w: T,
}

impl<T> Vector<T> {
    /// The lane with index `i`; lane 3 for every index above 2.
    pub open spec fn lane(self, i: int) -> T {
        if i == 0 {
            self.x
        } else if i == 1 {
            self.y
        } else if i == 2 {
            self.z
        } else {
            self.w
        }
    }

    /// The vector whose lanes are the lanes `x`, `y`, `z`, `w` of `self`, in
    /// that order.
    pub open spec fn shuffled(self, x: int, y: int, z: int, w: int) -> Vector<T> {
        Vector { x: self.lane(x), y: self.lane(y), z: self.lane(z), w: self.lane(w) }
    }

    /// The vector made of the lanes `x` and `y` of `a`, then the lanes `z`
    /// and `w` of `b`.
    pub open spec fn merged(a: Vector<T>, b: Vector<T>, x: int, y: int, z: int, w: int) -> Vector<
        T,
    > {
        Vector { x: a.lane(x), y: a.lane(y), z: b.lane(z), w: b.lane(w) }
    }

    /// The vector whose four lanes all hold `s`.
    pub open spec fn splat(s: T) -> Vector<T> {
        Vector { x: s, y: s, z: s, w: s }
    }
}

impl<T: PartialEq> Vector<T> {
    /// Each lane of `self` equals the same lane of `other`, as the lane type
    /// compares.
    pub open spec fn same_lanes(self, other: Vector<T>) -> bool {
        &&& self.x.eq_spec(&other.x)
        &&& self.y.eq_spec(&other.y)
        &&& self.z.eq_spec(&other.z)
        &&& self.w.eq_spec(&other.w)
    }
}

impl<T: PartialEq> PartialEq for Vector<T> {
    /// Whether the two vectors are equal lane by lane. The comparison is
    /// that of the lanes, and exact: nothing is taken as close enough.
    fn eq(&self, other: &Vector<T>) -> (r: bool)
        ensures
            T::obeys_eq_spec() ==> r == self.same_lanes(*other),
    {
        self.x == other.x && self.y == other.y && self.z == other.z && self.w == other.w
    }
}

impl<T: PartialEq> vstd::std_specs::cmp::PartialEqSpecImpl for Vector<T> {
    open spec fn obeys_eq_spec() -> bool {
        T::obeys_eq_spec()
    }

    open spec fn eq_spec(&self, other: &Vector<T>) -> bool {
        self.same_lanes(*other)
    }
}

impl<T: Copy> Vector<T> {
    /// A vector from its four lanes.
    pub fn new(x: T, y: T, z: T, w: T) -> (r: Vector<T>)
        ensures
            r == (Vector { x, y, z, w }),
    {
        Vector { x, y, z, w }
    }

    /// Lane 0.
    pub fn x(self) -> (r: T)
        ensures
            r == self.x,
    {
        self.x
    }

    /// Lane 1.
    pub fn y(self) -> (r: T)
        ensures
            r == self.y,
    {
        self.y
    }

    /// Lane 2.
    pub fn z(self) -> (r: T)
        ensures
            r == self.z,
    {
        self.z
    }

    /// Lane 3.
    pub fn w(self) -> (r: T)
        ensures
            r == self.w,
    {
        self.w
    }

    /// Replaces lane 0 and leaves the others as they are.
    pub fn set_x(&mut self, val: T)
        ensures
            *final(self) == (Vector { x: val, y: old(self).y, z: old(self).z, w: old(self).w }),
    {
        self.x = val;
    }

    /// Replaces lane 1 and leaves the others as they are.
    pub fn set_y(&mut self, val: T)
        ensures
            *final(self) == (Vector { x: old(self).x, y: val, z: old(self).z, w: old(self).w }),
    {
        self.y = val;
    }

    /// Replaces lane 2 and leaves the others as they are.
    pub fn set_z(&mut self, val: T)
        ensures
            *final(self) == (Vector { x: old(self).x, y: old(self).y, z: val, w: old(self).w }),
    {
        self.z = val;
    }

    /// Replaces lane 3 and leaves the others as they are.
    pub fn set_w(&mut self, val: T)
        ensures
            *final(self) == (Vector { x: old(self).x, y: old(self).y, z: old(self).z, w: val }),
    {
        self.w = val;
    }

    /// The lane with index `idx`. The named accessors say the same without
    /// an index to get wrong.
    pub fn get(self, idx: u8) -> (r: T)
        requires
            idx < 4,
        ensures
            r == self.lane(idx as int),
    {
        if idx == 0 {
            self.x
        } else if idx == 1 {
            self.y
        } else if idx == 2 {
            self.z
        } else {
            self.w
        }
    }

    /// Permutes the lanes: lane 0 of the result is lane `X` of `self`, lane 1
    /// is lane `Y`, lane 2 is lane `Z` and lane 3 is lane `W`. An index above
    /// 3 names no lane, and a call with one is rejected when it is verified.
    pub fn shuffle<const X: u32, const Y: u32, const Z: u32, const W: u32>(self) -> (r: Vector<T>)
        requires
            X < 4,
            Y < 4,
            Z < 4,
            W < 4,
        ensures
            r == self.shuffled(X as int, Y as int, Z as int, W as int),
    {
        Vector { x: self.pick(X), y: self.pick(Y), z: self.pick(Z), w: self.pick(W) }
    }

    /// Lanes `X` and `Y` of `vec1`, followed by lanes `Z` and `W` of `vec2`.
    pub fn shuffle_merge<const X: u32, const Y: u32, const Z: u32, const W: u32>(
        vec1: Vector<T>,
        vec2: Vector<T>,
    ) -> (r: Vector<T>)
        requires
            X < 4,
            Y < 4,
            Z < 4,
            W < 4,
        ensures
            r == Vector::merged(vec1, vec2, X as int, Y as int, Z as int, W as int),
    {
        Vector { x: vec1.pick(X), y: vec1.pick(Y), z: vec2.pick(Z), w: vec2.pick(W) }
    }

    /// The lane with index `i`.
    fn pick(self, i: u32) -> (r: T)
        requires
            i < 4,
        ensures
            r == self.lane(i as int),
    {
        if i == 0 {
            self.x
        } else if i == 1 {
            self.y
        } else if i == 2 {
            self.z
        } else {
            self.w
        }
    }
}

/// Shuffling with the indices 0, 1, 2, 3 changes nothing.
pub proof fn lemma_shuffle_identity<T>(v: Vector<T>)
    ensures
        v.shuffled(0, 1, 2, 3) == v,
{
}

/// A shuffle of a shuffle is one shuffle, by the composed indices.
pub proof fn lemma_shuffle_compose<T>(
    v: Vector<T>,
    a: (int, int, int, int),
    b: (int, int, int, int),
)
    requires
        0 <= b.0 < 4,
        0 <= b.1 < 4,
        0 <= b.2 < 4,
        0 <= b.3 < 4,
    ensures
        v.shuffled(a.0, a.1, a.2, a.3).shuffled(b.0, b.1, b.2, b.3) == v.shuffled(
            index_of(a, b.0),
            index_of(a, b.1),
            index_of(a, b.2),
            index_of(a, b.3),
        ),
{
}

/// The entry of a four-index pattern at position `i`.
pub open spec fn index_of(p: (int, int, int, int), i: int) -> int {
    if i == 0 {
        p.0
    } else if i == 1 {
        p.1
    } else if i == 2 {
        p.2
    } else {
        p.3
    }
}

impl<T: Lane> Vector<T> {
    /// The lane-wise sum.
    pub open spec fn sum(self, rhs: Vector<T>) -> Vector<T> {
        Vector {
            x: self.x.add_spec(rhs.x),
            y: self.y.add_spec(rhs.y),
            z: self.z.add_spec(rhs.z),
            w: self.w.add_spec(rhs.w),
        }
    }

    /// Each lane-wise addition is defined.
    pub open spec fn sum_req(self, rhs: Vector<T>) -> bool {
        &&& self.x.add_req(rhs.x)
        &&& self.y.add_req(rhs.y)
        &&& self.z.add_req(rhs.z)
        &&& self.w.add_req(rhs.w)
    }

    /// The lane-wise difference.
    pub open spec fn difference(self, rhs: Vector<T>) -> Vector<T> {
        Vector {
            x: self.x.sub_spec(rhs.x),
            y: self.y.sub_spec(rhs.y),
            z: self.z.sub_spec(rhs.z),
            w: self.w.sub_spec(rhs.w),
        }
    }

    /// Each lane-wise subtraction is defined.
    pub open spec fn difference_req(self, rhs: Vector<T>) -> bool {
        &&& self.x.sub_req(rhs.x)
        &&& self.y.sub_req(rhs.y)
        &&& self.z.sub_req(rhs.z)
        &&& self.w.sub_req(rhs.w)
    }

    /// The lane-wise product.
    pub open spec fn product(self, rhs: Vector<T>) -> Vector<T> {
        Vector {
            x: self.x.mul_spec(rhs.x),
            y: self.y.mul_spec(rhs.y),
            z: self.z.mul_spec(rhs.z),
            w: self.w.mul_spec(rhs.w),
        }
    }

    /// Each lane-wise multiplication is defined.
    pub open spec fn product_req(self, rhs: Vector<T>) -> bool {
        &&& self.x.mul_req(rhs.x)
        &&& self.y.mul_req(rhs.y)
        &&& self.z.mul_req(rhs.z)
        &&& self.w.mul_req(rhs.w)
    }

    /// The lane-wise quotient.
    pub open spec fn quotient(self, rhs: Vector<T>) -> Vector<T> {
        Vector {
            x: self.x.div_spec(rhs.x),
            y: self.y.div_spec(rhs.y),
            z: self.z.div_spec(rhs.z),
            w: self.w.div_spec(rhs.w),
        }
    }

    /// Each lane-wise division is defined.
    pub open spec fn quotient_req(self, rhs: Vector<T>) -> bool {
        &&& self.x.div_req(rhs.x)
        &&& self.y.div_req(rhs.y)
        &&& self.z.div_req(rhs.z)
        &&& self.w.div_req(rhs.w)
    }

    /// Each lane times the scalar `s`.
    pub open spec fn scaled(self, s: T) -> Vector<T> {
        Vector {
            x: self.x.mul_spec(s),
            y: self.y.mul_spec(s),
            z: self.z.mul_spec(s),
            w: self.w.mul_spec(s),
        }
    }

    /// Each multiplication by `s` is defined.
    pub open spec fn scaled_req(self, s: T) -> bool {
        &&& self.x.mul_req(s)
        &&& self.y.mul_req(s)
        &&& self.z.mul_req(s)
        &&& self.w.mul_req(s)
    }

    /// Each lane divided by the scalar `s`.
    pub open spec fn shrunk(self, s: T) -> Vector<T> {
        Vector {
            x: self.x.div_spec(s),
            y: self.y.div_spec(s),
            z: self.z.div_spec(s),
            w: self.w.div_spec(s),
        }
    }

    /// Each division by `s` is defined.
    pub open spec fn shrunk_req(self, s: T) -> bool {
        &&& self.x.div_req(s)
        &&& self.y.div_req(s)
        &&& self.z.div_req(s)
        &&& self.w.div_req(s)
    }

    /// The lane-wise negation.
    pub open spec fn negated(self) -> Vector<T> {
        Vector {
            x: self.x.neg_spec(),
            y: self.y.neg_spec(),
            z: self.z.neg_spec(),
            w: self.w.neg_spec(),
        }
    }

    /// Each lane-wise negation is defined.
    pub open spec fn negated_req(self) -> bool {
        &&& self.x.neg_req()
        &&& self.y.neg_req()
        &&& self.z.neg_req()
        &&& self.w.neg_req()
    }
}

impl<T: Lane> Add for Vector<T> {
    type Output = Vector<T>;

    /// The lane-wise sum.
    /// Asks for `self.sum_req(rhs)`.
    fn add(self, rhs: Vector<T>) -> (r: Vector<T>)
        ensures
            T::obeys_add_spec() ==> r == self.sum(rhs),
    {
        Vector {
            x: self.x + rhs.x,
            y: self.y + rhs.y,
            z: self.z + rhs.z,
            w: self.w + rhs.w,
        }
    }
}

impl<T: Lane> vstd::std_specs::ops::AddSpecImpl for Vector<T> {
    open spec fn obeys_add_spec() -> bool {
        T::obeys_add_spec()
    }

    open spec fn add_req(self, rhs: Vector<T>) -> bool {
        self.sum_req(rhs)
    }

    open spec fn add_spec(self, rhs: Vector<T>) -> Vector<T> {
        self.sum(rhs)
    }
}

impl<T: Lane> Sub for Vector<T> {
    type Output = Vector<T>;

    /// The lane-wise difference.
    /// Asks for `self.difference_req(rhs)`.
    fn sub(self, rhs: Vector<T>) -> (r: Vector<T>)
        ensures
            T::obeys_sub_spec() ==> r == self.difference(rhs),
    {
        Vector {
            x: self.x - rhs.x,
            y: self.y - rhs.y,
            z: self.z - rhs.z,
            w: self.w - rhs.w,
        }
    }
}

impl<T: Lane> vstd::std_specs::ops::SubSpecImpl for Vector<T> {
    open spec fn obeys_sub_spec() -> bool {
        T::obeys_sub_spec()
    }

    open spec fn sub_req(self, rhs: Vector<T>) -> bool {
        self.difference_req(rhs)
    }

    open spec fn sub_spec(self, rhs: Vector<T>) -> Vector<T> {
        self.difference(rhs)
    }
}

impl<T: Lane> Mul for Vector<T> {
    type Output = Vector<T>;

    /// The lane-wise product.
    /// Asks for `self.product_req(rhs)`.
    fn mul(self, rhs: Vector<T>) -> (r: Vector<T>)
        ensures
            T::obeys_mul_spec() ==> r == self.product(rhs),
    {
        Vector {
            x: self.x * rhs.x,
            y: self.y * rhs.y,
            z: self.z * rhs.z,
            w: self.w * rhs.w,
        }
    }
}

impl<T: Lane> vstd::std_specs::ops::MulSpecImpl for Vector<T> {
    open spec fn obeys_mul_spec() -> bool {
        T::obeys_mul_spec()
    }

    open spec fn mul_req(self, rhs: Vector<T>) -> bool {
        self.product_req(rhs)
    }

    open spec fn mul_spec(self, rhs: Vector<T>) -> Vector<T> {
        self.product(rhs)
    }
}

impl<T: Lane> Div for Vector<T> {
    type Output = Vector<T>;

    /// The lane-wise quotient.
    /// Asks for `self.quotient_req(rhs)`.
    fn div(self, rhs: Vector<T>) -> (r: Vector<T>)
        ensures
            T::obeys_div_spec() ==> r == self.quotient(rhs),
    {
        Vector {
            x: self.x / rhs.x,
            y: self.y / rhs.y,
            z: self.z / rhs.z,
            w: self.w / rhs.w,
        }
    }
}

impl<T: Lane> vstd::std_specs::ops::DivSpecImpl for Vector<T> {
    open spec fn obeys_div_spec() -> bool {
        T::obeys_div_spec()
    }

    open spec fn div_req(self, rhs: Vector<T>) -> bool {
        self.quotient_req(rhs)
    }

    open spec fn div_spec(self, rhs: Vector<T>) -> Vector<T> {
        self.quotient(rhs)
    }
}

impl<T: Lane> Mul<T> for Vector<T> {
    type Output = Vector<T>;

    /// Each lane times the scalar `rhs`.
    /// Asks for `self.scaled_req(rhs)`.
    fn mul(self, rhs: T) -> (r: Vector<T>)
        ensures
            T::obeys_mul_spec() ==> r == self.scaled(rhs),
    {
        Vector {
            x: self.x * rhs,
            y: self.y * rhs,
            z: self.z * rhs,
            w: self.w * rhs,
        }
    }
}

impl<T: Lane> vstd::std_specs::ops::MulSpecImpl<T> for Vector<T> {
    open spec fn obeys_mul_spec() -> bool {
        T::obeys_mul_spec()
    }

    open spec fn mul_req(self, rhs: T) -> bool {
        self.scaled_req(rhs)
    }

    open spec fn mul_spec(self, rhs: T) -> Vector<T> {
        self.scaled(rhs)
    }
}

impl<T: Lane> Div<T> for Vector<T> {
    type Output = Vector<T>;

    /// Each lane divided by the scalar `rhs`.
    /// Asks for `self.shrunk_req(rhs)`.
    fn div(self, rhs: T) -> (r: Vector<T>)
        ensures
            T::obeys_div_spec() ==> r == self.shrunk(rhs),
    {
        Vector {
            x: self.x / rhs,
            y: self.y / rhs,
            z: self.z / rhs,
            w: self.w / rhs,
        }
    }
}

impl<T: Lane> vstd::std_specs::ops::DivSpecImpl<T> for Vector<T> {
    open spec fn obeys_div_spec() -> bool {
        T::obeys_div_spec()
    }

    open spec fn div_req(self, rhs: T) -> bool {
        self.shrunk_req(rhs)
    }

    open spec fn div_spec(self, rhs: T) -> Vector<T> {
        self.shrunk(rhs)
    }
}

impl<T: Lane> Neg for Vector<T> {
    type Output = Vector<T>;

    /// The lane-wise negation.
    /// Asks for `self.negated_req()`.
    fn neg(self) -> (r: Vector<T>)
        ensures
            T::obeys_neg_spec() ==> r == self.negated(),
    {
        Vector { x: self.x.neg(), y: self.y.neg(), z: self.z.neg(), w: self.w.neg() }
    }
}

impl<T: Lane> vstd::std_specs::ops::NegSpecImpl for Vector<T> {
    open spec fn obeys_neg_spec() -> bool {
        T::obeys_neg_spec()
    }

    open spec fn neg_req(self) -> bool {
        self.negated_req()
    }

    open spec fn neg_spec(self) -> Vector<T> {
        self.negated()
    }
}

impl<T: Lane> Default for Vector<T> {
    /// The zero vector.
    fn default() -> (r: Vector<T>)
        ensures
            exact::<T>() ==> r == Vector::<T>::zero(),
    {
        let z = lane::<T>(0);
        Vector { x: z, y: z, z: z, w: z }
    }
}

impl<T: Lane> Vector<T> {
    /// The vector whose four lanes are zero.
    pub open spec fn zero() -> Vector<T> {
        Vector::splat(lit::<T>(0))
    }

    /// The sum of the four lanes, added from lane 0 upwards.
    pub open spec fn hsum_spec(self) -> T {
        self.x.add_spec(self.y).add_spec(self.z).add_spec(self.w)
    }

    /// Each addition of `hsum_spec` is defined.
    pub open spec fn hsum_req(self) -> bool {
        &&& self.x.add_req(self.y)
        &&& self.x.add_spec(self.y).add_req(self.z)
        &&& self.x.add_spec(self.y).add_spec(self.z).add_req(self.w)
    }

    /// The sum of the four lanes.
    pub fn hsum(self) -> (r: T)
        requires
            sound::<T>(),
            self.hsum_req(),
        ensures
            exact::<T>() ==> r == self.hsum_spec(),
    {
        self.x + self.y + self.z + self.w
    }

    /// The four-lane dot product: the sum of the lane-wise product.
    pub open spec fn dot_spec(lhs: Vector<T>, rhs: Vector<T>) -> T {
        lhs.product(rhs).hsum_spec()
    }

    /// Each multiplication and addition of `dot_spec` is defined.
    pub open spec fn dot_req(lhs: Vector<T>, rhs: Vector<T>) -> bool {
        &&& lhs.product_req(rhs)
        &&& lhs.product(rhs).hsum_req()
    }

    /// The four-lane dot product.
    pub fn dot(lhs: Vector<T>, rhs: Vector<T>) -> (r: T)
        requires
            sound::<T>(),
            Self::dot_req(lhs, rhs),
        ensures
            exact::<T>() ==> r == Self::dot_spec(lhs, rhs),
    {
        (lhs * rhs).hsum()
    }

    /// The square of the four-lane Euclidean length, lane 3 included.
    pub fn length_square(self) -> (r: T)
        requires
            sound::<T>(),
            Self::dot_req(self, self),
        ensures
            exact::<T>() ==> r == Self::dot_spec(self, self),
    {
        Self::dot(self, self)
    }

    /// The cross product of the first three lanes. Lane 3 holds the product
    /// of the two fourth lanes minus itself.
    pub open spec fn cross_spec(lhs: Vector<T>, rhs: Vector<T>) -> Vector<T> {
        Vector {
            x: lhs.y.mul_spec(rhs.z).sub_spec(lhs.z.mul_spec(rhs.y)),
            y: lhs.z.mul_spec(rhs.x).sub_spec(lhs.x.mul_spec(rhs.z)),
            z: lhs.x.mul_spec(rhs.y).sub_spec(lhs.y.mul_spec(rhs.x)),
            w: lhs.w.mul_spec(rhs.w).sub_spec(lhs.w.mul_spec(rhs.w)),
        }
    }

    /// Each multiplication and subtraction of `cross_spec` is defined.
    pub open spec fn cross_req(lhs: Vector<T>, rhs: Vector<T>) -> bool {
        &&& lhs.y.mul_req(rhs.z) && lhs.z.mul_req(rhs.y)
        &&& lhs.z.mul_req(rhs.x) && lhs.x.mul_req(rhs.z)
        &&& lhs.x.mul_req(rhs.y) && lhs.y.mul_req(rhs.x)
        &&& lhs.w.mul_req(rhs.w)
        &&& lhs.y.mul_spec(rhs.z).sub_req(lhs.z.mul_spec(rhs.y))
        &&& lhs.z.mul_spec(rhs.x).sub_req(lhs.x.mul_spec(rhs.z))
        &&& lhs.x.mul_spec(rhs.y).sub_req(lhs.y.mul_spec(rhs.x))
        &&& lhs.w.mul_spec(rhs.w).sub_req(lhs.w.mul_spec(rhs.w))
    }

    /// The three-dimensional cross product, by two shuffles of the operands,
    /// two lane-wise products, one more shuffle and one subtraction.
    pub fn cross(lhs: Vector<T>, rhs: Vector<T>) -> (r: Vector<T>)
        requires
            sound::<T>(),
            Self::cross_req(lhs, rhs),
        ensures
            exact::<T>() ==> r == Self::cross_spec(lhs, rhs),
    {
        let temp = lhs.shuffle::<1, 2, 0, 3>();
        temp * rhs.shuffle::<2, 0, 1, 3>() - (temp * rhs).shuffle::<1, 2, 0, 3>()
    }

    /// The point at `t` on the line from `from` to `to`: `from` at 0 and,
    /// where the arithmetic is that of a field, `to` at 1. `t` is not clamped.
    pub open spec fn lerp_spec(from: Vector<T>, to: Vector<T>, t: T) -> Vector<T> {
        from.sum(to.difference(from).scaled(t))
    }

    /// Each step of `lerp_spec` is defined.
    pub open spec fn lerp_req(from: Vector<T>, to: Vector<T>, t: T) -> bool {
        &&& to.difference_req(from)
        &&& to.difference(from).scaled_req(t)
        &&& from.sum_req(to.difference(from).scaled(t))
    }

    /// Linear interpolation from `from` to `to` by the factor `t`.
    pub fn lerp(from: Vector<T>, to: Vector<T>, t: T) -> (r: Vector<T>)
        requires
            sound::<T>(),
            Self::lerp_req(from, to, t),
        ensures
            exact::<T>() ==> r == Self::lerp_spec(from, to, t),
    {
        from + (to - from) * t
    }

    /// The sums of adjacent lanes: of lanes 0 and 1 and of lanes 2 and 3 of
    /// `lhs`, then the same of `rhs`.
    pub open spec fn adj_add_spec(lhs: Vector<T>, rhs: Vector<T>) -> Vector<T> {
        Vector {
            x: lhs.x.add_spec(lhs.y),
            y: lhs.z.add_spec(lhs.w),
            z: rhs.x.add_spec(rhs.y),
            w: rhs.z.add_spec(rhs.w),
        }
    }

    /// Each addition of `adj_add_spec` is defined.
    pub open spec fn adj_add_req(lhs: Vector<T>, rhs: Vector<T>) -> bool {
        &&& lhs.x.add_req(lhs.y)
        &&& lhs.z.add_req(lhs.w)
        &&& rhs.x.add_req(rhs.y)
        &&& rhs.z.add_req(rhs.w)
    }

    /// The sums of adjacent lanes of `lhs`, then of `rhs`.
    pub fn adj_add(lhs: Vector<T>, rhs: Vector<T>) -> (r: Vector<T>)
        requires
            Self::adj_add_req(lhs, rhs),
        ensures
            T::obeys_add_spec() ==> r == Self::adj_add_spec(lhs, rhs),
    {
        Vector { x: lhs.x + lhs.y, y: lhs.z + lhs.w, z: rhs.x + rhs.y, w: rhs.z + rhs.w }
    }

    /// The differences of adjacent lanes: lane 0 minus lane 1 and lane 2
    /// minus lane 3 of `lhs`, then the same of `rhs`.
    pub open spec fn adj_sub_spec(lhs: Vector<T>, rhs: Vector<T>) -> Vector<T> {
        Vector {
            x: lhs.x.sub_spec(lhs.y),
            y: lhs.z.sub_spec(lhs.w),
            z: rhs.x.sub_spec(rhs.y),
            w: rhs.z.sub_spec(rhs.w),
        }
    }

    /// Each subtraction of `adj_sub_spec` is defined.
    pub open spec fn adj_sub_req(lhs: Vector<T>, rhs: Vector<T>) -> bool {
        &&& lhs.x.sub_req(lhs.y)
        &&& lhs.z.sub_req(lhs.w)
        &&& rhs.x.sub_req(rhs.y)
        &&& rhs.z.sub_req(rhs.w)
    }

    /// The differences of adjacent lanes of `lhs`, then of `rhs`.
    pub fn adj_sub(lhs: Vector<T>, rhs: Vector<T>) -> (r: Vector<T>)
        requires
            Self::adj_sub_req(lhs, rhs),
        ensures
            T::obeys_sub_spec() ==> r == Self::adj_sub_spec(lhs, rhs),
    {
        Vector { x: lhs.x - lhs.y, y: lhs.z - lhs.w, z: rhs.x - rhs.y, w: rhs.z - rhs.w }
    }

    /// Lane-wise, the difference in lanes 0 and 2 and the sum in lanes 1
    /// and 3.
    pub open spec fn add_sub_spec(lhs: Vector<T>, rhs: Vector<T>) -> Vector<T> {
        Vector {
            x: lhs.x.sub_spec(rhs.x),
            y: lhs.y.add_spec(rhs.y),
            z: lhs.z.sub_spec(rhs.z),
            w: lhs.w.add_spec(rhs.w),
        }
    }

    /// Each step of `add_sub_spec` is defined.
    pub open spec fn add_sub_req(lhs: Vector<T>, rhs: Vector<T>) -> bool {
        &&& lhs.x.sub_req(rhs.x)
        &&& lhs.y.add_req(rhs.y)
        &&& lhs.z.sub_req(rhs.z)
        &&& lhs.w.add_req(rhs.w)
    }

    /// Subtracts in the even lanes and adds in the odd ones.
    pub fn add_sub(lhs: Vector<T>, rhs: Vector<T>) -> (r: Vector<T>)
        requires
            Self::add_sub_req(lhs, rhs),
        ensures
            T::obeys_add_spec() && T::obeys_sub_spec() ==> r == Self::add_sub_spec(lhs, rhs),
    {
        Vector { x: lhs.x - rhs.x, y: lhs.y + rhs.y, z: lhs.z - rhs.z, w: lhs.w + rhs.w }
    }
}

/// The smaller of two lanes: `a` where it is less than `b`, else `b`.
pub open spec fn lane_min<T: PartialOrd>(a: T, b: T) -> T {
    if a.is_lt(&b) {
        a
    } else {
        b
    }
}

/// The greater of two lanes: `a` where it is greater than `b`, else `b`.
pub open spec fn lane_max<T: PartialOrd>(a: T, b: T) -> T {
    if a.is_gt(&b) {
        a
    } else {
        b
    }
}

/// The absolute value of a lane: its negation where it is less than zero.
pub open spec fn lane_abs<T: Lane + PartialOrd>(a: T) -> T {
    if a.is_lt(&lit::<T>(0)) {
        a.neg_spec()
    } else {
        a
    }
}

/// The negation that `lane_abs` may take is defined.
pub open spec fn lane_abs_req<T: Lane + PartialOrd>(a: T) -> bool {
    a.is_lt(&lit::<T>(0)) ==> a.neg_req()
}

/// The smaller of two lanes.
fn min_lane<T: Copy + PartialOrd>(a: T, b: T) -> (r: T)
    ensures
        r == a || r == b,
        T::obeys_partial_cmp_spec() ==> r == lane_min(a, b),
{
    if a < b {
        a
    } else {
        b
    }
}

/// The greater of two lanes.
fn max_lane<T: Copy + PartialOrd>(a: T, b: T) -> (r: T)
    ensures
        r == a || r == b,
        T::obeys_partial_cmp_spec() ==> r == lane_max(a, b),
{
    if a > b {
        a
    } else {
        b
    }
}

/// The absolute value of one lane.
pub fn abs_lane<T: Lane + PartialOrd>(a: T) -> (r: T)
    requires
        sound_ordered::<T>(),
        lane_abs_req(a),
    ensures
        exact_ordered::<T>() ==> r == lane_abs(a),
{
    let zero = lane::<T>(0);
    if a < zero {
        a.neg()
    } else {
        a
    }
}

impl<T: Lane + PartialOrd> Vector<T> {
    /// The lane-wise absolute value.
    pub open spec fn abs_spec(self) -> Vector<T> {
        Vector {
            x: lane_abs(self.x),
            y: lane_abs(self.y),
            z: lane_abs(self.z),
            w: lane_abs(self.w),
        }
    }

    /// Each negation of `abs_spec` is defined.
    pub open spec fn abs_req(self) -> bool {
        &&& lane_abs_req(self.x)
        &&& lane_abs_req(self.y)
        &&& lane_abs_req(self.z)
        &&& lane_abs_req(self.w)
    }

    /// The lane-wise absolute value.
    pub fn abs(self) -> (r: Vector<T>)
        requires
            sound_ordered::<T>(),
            self.abs_req(),
        ensures
            exact_ordered::<T>() ==> r == self.abs_spec(),
    {
        Vector {
            x: abs_lane(self.x),
            y: abs_lane(self.y),
            z: abs_lane(self.z),
            w: abs_lane(self.w),
        }
    }

    /// The lane-wise minimum.
    pub open spec fn min_spec(lhs: Vector<T>, rhs: Vector<T>) -> Vector<T> {
        Vector {
            x: lane_min(lhs.x, rhs.x),
            y: lane_min(lhs.y, rhs.y),
            z: lane_min(lhs.z, rhs.z),
            w: lane_min(lhs.w, rhs.w),
        }
    }

    /// The lane-wise maximum.
    pub open spec fn max_spec(lhs: Vector<T>, rhs: Vector<T>) -> Vector<T> {
        Vector {
            x: lane_max(lhs.x, rhs.x),
            y: lane_max(lhs.y, rhs.y),
            z: lane_max(lhs.z, rhs.z),
            w: lane_max(lhs.w, rhs.w),
        }
    }

    /// Each lane of `r` is the same lane of `a` or of `b`.
    pub open spec fn picks_lanes(r: Vector<T>, a: Vector<T>, b: Vector<T>) -> bool {
        &&& r.x == a.x || r.x == b.x
        &&& r.y == a.y || r.y == b.y
        &&& r.z == a.z || r.z == b.z
        &&& r.w == a.w || r.w == b.w
    }

    /// The lane-wise minimum. Whatever the comparison answers, each lane of
    /// the result is that lane of one of the operands.
    pub fn min(lhs: Vector<T>, rhs: Vector<T>) -> (r: Vector<T>)
        ensures
            Self::picks_lanes(r, lhs, rhs),
            T::obeys_partial_cmp_spec() ==> r == Self::min_spec(lhs, rhs),
    {
        Vector {
            x: min_lane(lhs.x, rhs.x),
            y: min_lane(lhs.y, rhs.y),
            z: min_lane(lhs.z, rhs.z),
            w: min_lane(lhs.w, rhs.w),
        }
    }

    /// The lane-wise maximum. Whatever the comparison answers, each lane of
    /// the result is that lane of one of the operands.
    pub fn max(lhs: Vector<T>, rhs: Vector<T>) -> (r: Vector<T>)
        ensures
            Self::picks_lanes(r, lhs, rhs),
            T::obeys_partial_cmp_spec() ==> r == Self::max_spec(lhs, rhs),
    {
        Vector {
            x: max_lane(lhs.x, rhs.x),
            y: max_lane(lhs.y, rhs.y),
            z: max_lane(lhs.z, rhs.z),
            w: max_lane(lhs.w, rhs.w),
        }
    }

    /// `val` held lane-wise between `min_val` and `max_val`: the minimum,
    /// with `max_val`, of the maximum of `val` and `min_val`.
    pub fn clamp(val: Vector<T>, min_val: Vector<T>, max_val: Vector<T>) -> (r: Vector<T>)
        ensures
            T::obeys_partial_cmp_spec() ==> r == Self::min_spec(
                Self::max_spec(val, min_val),
                max_val,
            ),
    {
        Self::min(Self::max(val, min_val), max_val)
    }
}

} // verus!
