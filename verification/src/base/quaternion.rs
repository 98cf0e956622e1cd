//! Quaternions.

use crate::base::vector::Vector;
use crate::base::nearly_equal;
use crate::base::vector::{lane_abs, lane_abs_req};
use crate::lane::{exact, exact_ordered, lane, lit, sound, sound_ordered, Lane};
use core::ops::{Add, AddAssign, Div, DivAssign, Mul, MulAssign, Sub, SubAssign};
use vstd::prelude::*;
use vstd::std_specs::cmp::{PartialEqSpec, PartialOrdIs, PartialOrdSpec};
use vstd::std_specs::ops::{AddSpec, DivSpec, MulSpec, SubSpec};

verus! {

/// A quaternion `x i + y j + z k + w`: the four lanes of a vector, the
/// scalar part in lane 3.
#[derive(Clone, Copy, Debug)]
pub struct Quaternion<T>(pub Vector<T>);

impl<T: PartialEq> Quaternion<T> {
    /// Each lane of `self` equals the same lane of `other`, as the lane type
    /// compares.
    pub open spec fn same_lanes(self, other: Quaternion<T>) -> bool {
        self.0.same_lanes(other.0)
    }
}

impl<T: PartialEq> PartialEq for Quaternion<T> {
    /// Whether the two quaternions are equal lane by lane.
    fn eq(&self, other: &Quaternion<T>) -> (r: bool)
        ensures
            T::obeys_eq_spec() ==> r == self.same_lanes(*other),
    {
        self.0 == other.0
    }
}

impl<T: PartialEq> vstd::std_specs::cmp::PartialEqSpecImpl for Quaternion<T> {
    open spec fn obeys_eq_spec() -> bool {
        T::obeys_eq_spec()
    }

    open spec fn eq_spec(&self, other: &Quaternion<T>) -> bool {
        self.same_lanes(*other)
    }
}


/// `a b + c d + e f - g h`, summed from the left.
pub open spec fn plus_plus_minus<T: Lane>(a: T, b: T, c: T, d: T, e: T, f: T, g: T, h: T) -> T {
    a.mul_spec(b).add_spec(c.mul_spec(d)).add_spec(e.mul_spec(f)).sub_spec(g.mul_spec(h))
}

/// Each step of `plus_plus_minus` is defined.
pub open spec fn plus_plus_minus_req<T: Lane>(
    a: T,
    b: T,
    c: T,
    d: T,
    e: T,
    f: T,
    g: T,
    h: T,
) -> bool {
    &&& a.mul_req(b) && c.mul_req(d) && e.mul_req(f) && g.mul_req(h)
    &&& a.mul_spec(b).add_req(c.mul_spec(d))
    &&& a.mul_spec(b).add_spec(c.mul_spec(d)).add_req(e.mul_spec(f))
    &&& a.mul_spec(b).add_spec(c.mul_spec(d)).add_spec(e.mul_spec(f)).sub_req(g.mul_spec(h))
}

/// `a b - c d - e f - g h`, subtracted from the left.
pub open spec fn minus_minus_minus<T: Lane>(a: T, b: T, c: T, d: T, e: T, f: T, g: T, h: T) -> T {
    a.mul_spec(b).sub_spec(c.mul_spec(d)).sub_spec(e.mul_spec(f)).sub_spec(g.mul_spec(h))
}

/// Each step of `minus_minus_minus` is defined.
pub open spec fn minus_minus_minus_req<T: Lane>(
    a: T,
    b: T,
    c: T,
    d: T,
    e: T,
    f: T,
    g: T,
    h: T,
) -> bool {
    &&& a.mul_req(b) && c.mul_req(d) && e.mul_req(f) && g.mul_req(h)
    &&& a.mul_spec(b).sub_req(c.mul_spec(d))
    &&& a.mul_spec(b).sub_spec(c.mul_spec(d)).sub_req(e.mul_spec(f))
    &&& a.mul_spec(b).sub_spec(c.mul_spec(d)).sub_spec(e.mul_spec(f)).sub_req(g.mul_spec(h))
}

impl<T: Copy> Quaternion<T> {
    /// The quaternion `x i + y j + z k + w`.
    pub fn new(x: T, y: T, z: T, w: T) -> (r: Quaternion<T>)
        ensures
            r == Quaternion(Vector { x, y, z, w }),
    {
        Quaternion(Vector::new(x, y, z, w))
    }

    /// The coefficient of `i`.
    pub fn x(self) -> (r: T)
        ensures
            r == self.0.x,
    {
        self.0.x()
    }

    /// The coefficient of `j`.
    pub fn y(self) -> (r: T)
        ensures
            r == self.0.y,
    {
        self.0.y()
    }

    /// The coefficient of `k`.
    pub fn z(self) -> (r: T)
        ensures
            r == self.0.z,
    {
        self.0.z()
    }

    /// The scalar part.
    pub fn w(self) -> (r: T)
        ensures
            r == self.0.w,
    {
        self.0.w()
    }

    /// Replaces the coefficient of `i` and leaves the rest as it is.
    pub fn set_x(&mut self, val: T)
        ensures
            final(self).0 == (Vector {
                x: val,
                y: old(self).0.y,
                z: old(self).0.z,
                w: old(self).0.w,
            }),
    {
        self.0.set_x(val)
    }

    /// Replaces the coefficient of `j` and leaves the rest as it is.
    pub fn set_y(&mut self, val: T)
        ensures
            final(self).0 == (Vector {
                x: old(self).0.x,
                y: val,
                z: old(self).0.z,
                w: old(self).0.w,
            }),
    {
        self.0.set_y(val)
    }

    /// Replaces the coefficient of `k` and leaves the rest as it is.
    pub fn set_z(&mut self, val: T)
        ensures
            final(self).0 == (Vector {
                x: old(self).0.x,
                y: old(self).0.y,
                z: val,
                w: old(self).0.w,
            }),
    {
        self.0.set_z(val)
    }

    /// Replaces the scalar part and leaves the rest as it is.
    pub fn set_w(&mut self, val: T)
        ensures
            final(self).0 == (Vector {
                x: old(self).0.x,
                y: old(self).0.y,
                z: old(self).0.z,
                w: val,
            }),
    {
        self.0.set_w(val)
    }
}

impl<T: Lane> Quaternion<T> {
    /// The sum, part by part.
    pub open spec fn sum(self, rhs: Quaternion<T>) -> Quaternion<T> {
        Quaternion(self.0.sum(rhs.0))
    }

    /// Each addition of `sum` is defined.
    pub open spec fn sum_req(self, rhs: Quaternion<T>) -> bool {
        self.0.sum_req(rhs.0)
    }

    /// The difference, part by part.
    pub open spec fn difference(self, rhs: Quaternion<T>) -> Quaternion<T> {
        Quaternion(self.0.difference(rhs.0))
    }

    /// Each subtraction of `difference` is defined.
    pub open spec fn difference_req(self, rhs: Quaternion<T>) -> bool {
        self.0.difference_req(rhs.0)
    }

    /// Each part times the scalar `s`.
    pub open spec fn scaled(self, s: T) -> Quaternion<T> {
        Quaternion(self.0.scaled(s))
    }

    /// Each multiplication of `scaled` is defined.
    pub open spec fn scaled_req(self, s: T) -> bool {
        self.0.scaled_req(s)
    }

    /// Each part divided by the scalar `s`.
    pub open spec fn shrunk(self, s: T) -> Quaternion<T> {
        Quaternion(self.0.shrunk(s))
    }

    /// Each division of `shrunk` is defined.
    pub open spec fn shrunk_req(self, s: T) -> bool {
        self.0.shrunk_req(s)
    }

    /// The Hamilton product `self * rhs`.
    pub open spec fn hamilton(self, rhs: Quaternion<T>) -> Quaternion<T> {
        let (l, r) = (self.0, rhs.0);
        Quaternion(
            Vector {
                x: plus_plus_minus(l.w, r.x, l.x, r.w, l.y, r.z, l.z, r.y),
                y: plus_plus_minus(l.w, r.y, l.y, r.w, l.z, r.x, l.x, r.z),
                z: plus_plus_minus(l.w, r.z, l.z, r.w, l.x, r.y, l.y, r.x),
                w: minus_minus_minus(l.w, r.w, l.x, r.x, l.y, r.y, l.z, r.z),
            },
        )
    }

    /// The arithmetic of `T` can be chained, and each step of `hamilton` is
    /// defined.
    pub open spec fn hamilton_req(self, rhs: Quaternion<T>) -> bool {
        let (l, r) = (self.0, rhs.0);
        &&& sound::<T>()
        &&& plus_plus_minus_req(l.w, r.x, l.x, r.w, l.y, r.z, l.z, r.y)
        &&& plus_plus_minus_req(l.w, r.y, l.y, r.w, l.z, r.x, l.x, r.z)
        &&& plus_plus_minus_req(l.w, r.z, l.z, r.w, l.x, r.y, l.y, r.x)
        &&& minus_minus_minus_req(l.w, r.w, l.x, r.x, l.y, r.y, l.z, r.z)
    }

    /// The identity rotation: the quaternion 1.
    pub open spec fn one() -> Quaternion<T> {
        Quaternion(Vector { x: lit::<T>(0), y: lit::<T>(0), z: lit::<T>(0), w: lit::<T>(1) })
    }

    /// The four-part dot product.
    pub fn dot(lhs: Quaternion<T>, rhs: Quaternion<T>) -> (r: T)
        requires
            sound::<T>(),
            Vector::dot_req(lhs.0, rhs.0),
        ensures
            exact::<T>() ==> r == Vector::dot_spec(lhs.0, rhs.0),
    {
        Vector::dot(lhs.0, rhs.0)
    }
}

impl<T: Lane> Default for Quaternion<T> {
    /// The identity rotation.
    fn default() -> (r: Quaternion<T>)
        ensures
            exact::<T>() ==> r == Quaternion::<T>::one(),
    {
        let z = lane::<T>(0);
        Quaternion(Vector::new(z, z, z, lane::<T>(1)))
    }
}

impl<T: Lane> Add for Quaternion<T> {
    type Output = Quaternion<T>;

    /// The sum, part by part.
    /// Asks for `self.sum_req(rhs)`.
    fn add(self, rhs: Quaternion<T>) -> (r: Quaternion<T>)
        ensures
            T::obeys_add_spec() ==> r == self.sum(rhs),
    {
        Quaternion(self.0 + rhs.0)
    }
}

impl<T: Lane> vstd::std_specs::ops::AddSpecImpl for Quaternion<T> {
    open spec fn obeys_add_spec() -> bool {
        T::obeys_add_spec()
    }

    open spec fn add_req(self, rhs: Quaternion<T>) -> bool {
        self.sum_req(rhs)
    }

    open spec fn add_spec(self, rhs: Quaternion<T>) -> Quaternion<T> {
        self.sum(rhs)
    }
}

impl<T: Lane> AddAssign for Quaternion<T> {
    /// Adds `rhs` to the quaternion.
    fn add_assign(&mut self, rhs: Quaternion<T>)
        requires
            old(self).sum_req(rhs),
        ensures
            T::obeys_add_spec() ==> *final(self) == old(self).sum(rhs),
    {
        *self = *self + rhs;
    }
}

impl<T: Lane> Sub for Quaternion<T> {
    type Output = Quaternion<T>;

    /// The difference, part by part.
    /// Asks for `self.difference_req(rhs)`.
    fn sub(self, rhs: Quaternion<T>) -> (r: Quaternion<T>)
        ensures
            T::obeys_sub_spec() ==> r == self.difference(rhs),
    {
        Quaternion(self.0 - rhs.0)
    }
}

impl<T: Lane> vstd::std_specs::ops::SubSpecImpl for Quaternion<T> {
    open spec fn obeys_sub_spec() -> bool {
        T::obeys_sub_spec()
    }

    open spec fn sub_req(self, rhs: Quaternion<T>) -> bool {
        self.difference_req(rhs)
    }

    open spec fn sub_spec(self, rhs: Quaternion<T>) -> Quaternion<T> {
        self.difference(rhs)
    }
}

impl<T: Lane> SubAssign for Quaternion<T> {
    /// Subtracts `rhs` from the quaternion.
    fn sub_assign(&mut self, rhs: Quaternion<T>)
        requires
            old(self).difference_req(rhs),
        ensures
            T::obeys_sub_spec() ==> *final(self) == old(self).difference(rhs),
    {
        *self = *self - rhs;
    }
}

impl<T: Lane> Mul<T> for Quaternion<T> {
    type Output = Quaternion<T>;

    /// Each part times the scalar `rhs`.
    /// Asks for `self.scaled_req(rhs)`.
    fn mul(self, rhs: T) -> (r: Quaternion<T>)
        ensures
            T::obeys_mul_spec() ==> r == self.scaled(rhs),
    {
        Quaternion(self.0 * rhs)
    }
}

impl<T: Lane> vstd::std_specs::ops::MulSpecImpl<T> for Quaternion<T> {
    open spec fn obeys_mul_spec() -> bool {
        T::obeys_mul_spec()
    }

    open spec fn mul_req(self, rhs: T) -> bool {
        self.scaled_req(rhs)
    }

    open spec fn mul_spec(self, rhs: T) -> Quaternion<T> {
        self.scaled(rhs)
    }
}

impl<T: Lane> MulAssign<T> for Quaternion<T> {
    /// Multiplies each part by the scalar `rhs`.
    fn mul_assign(&mut self, rhs: T)
        requires
            old(self).scaled_req(rhs),
        ensures
            T::obeys_mul_spec() ==> *final(self) == old(self).scaled(rhs),
    {
        *self = *self * rhs;
    }
}

impl<T: Lane> Div<T> for Quaternion<T> {
    type Output = Quaternion<T>;

    /// Each part divided by the scalar `rhs`.
    /// Asks for `self.shrunk_req(rhs)`.
    fn div(self, rhs: T) -> (r: Quaternion<T>)
        ensures
            T::obeys_div_spec() ==> r == self.shrunk(rhs),
    {
        Quaternion(self.0 / rhs)
    }
}

impl<T: Lane> vstd::std_specs::ops::DivSpecImpl<T> for Quaternion<T> {
    open spec fn obeys_div_spec() -> bool {
        T::obeys_div_spec()
    }

    open spec fn div_req(self, rhs: T) -> bool {
        self.shrunk_req(rhs)
    }

    open spec fn div_spec(self, rhs: T) -> Quaternion<T> {
        self.shrunk(rhs)
    }
}

impl<T: Lane> DivAssign<T> for Quaternion<T> {
    /// Divides each part by the scalar `rhs`.
    fn div_assign(&mut self, rhs: T)
        requires
            old(self).shrunk_req(rhs),
        ensures
            T::obeys_div_spec() ==> *final(self) == old(self).shrunk(rhs),
    {
        *self = *self / rhs;
    }
}

impl<T: Lane> Mul for Quaternion<T> {
    type Output = Quaternion<T>;

    /// The Hamilton product: with `v` for the vector parts and `s` for the
    /// scalar ones, the vector part is `s1 v2 + s2 v1 + v1 x v2` and the
    /// scalar part `s1 s2 - v1 . v2`.
    /// Asks for `self.hamilton_req(rhs)`.
    fn mul(self, rhs: Quaternion<T>) -> (r: Quaternion<T>)
        ensures
            exact::<T>() ==> r == self.hamilton(rhs),
    {
        let l = self.0;
        let r = rhs.0;
        Quaternion(
            Vector::new(
                l.w * r.x + l.x * r.w + l.y * r.z - l.z * r.y,
                l.w * r.y + l.y * r.w + l.z * r.x - l.x * r.z,
                l.w * r.z + l.z * r.w + l.x * r.y - l.y * r.x,
                l.w * r.w - l.x * r.x - l.y * r.y - l.z * r.z,
            ),
        )
    }
}

impl<T: Lane> vstd::std_specs::ops::MulSpecImpl for Quaternion<T> {
    open spec fn obeys_mul_spec() -> bool {
        exact::<T>()
    }

    open spec fn mul_req(self, rhs: Quaternion<T>) -> bool {
        self.hamilton_req(rhs)
    }

    open spec fn mul_spec(self, rhs: Quaternion<T>) -> Quaternion<T> {
        self.hamilton(rhs)
    }
}

impl<T: Lane> MulAssign for Quaternion<T> {
    /// Multiplies the quaternion by `rhs`, on the right.
    fn mul_assign(&mut self, rhs: Quaternion<T>)
        requires
            old(self).hamilton_req(rhs),
        ensures
            exact::<T>() ==> *final(self) == old(self).hamilton(rhs),
    {
        *self = *self * rhs;
    }
}

/// Where a spherical interpolation stands once the angle between its ends is
/// known.
#[derive(Clone, Copy, Debug, PartialEq)]
pub enum Slerp<T> {
    /// The ends are nearly parallel. The result is this quaternion, once it
    /// is normalized.
    Linear(Quaternion<T>),
    /// The ends are `cos` apart, as the cosine of their angle. `perp` is the
    /// part of the second end that is orthogonal to the first; once it is
    /// normalized, the result is found by `Quaternion::slerp_along`.
    Spherical { cos: T, perp: Quaternion<T> },
}

impl<T: Lane + PartialOrd> Quaternion<T> {
    /// How far the squared length of a unit quaternion may be from one: one
    /// in ten thousand.
    pub open spec fn unit_tolerance() -> T {
        lit::<T>(1).div_spec(lit::<T>(10000))
    }

    /// The cosine above which two unit quaternions count as nearly parallel:
    /// 9995 in ten thousand.
    pub open spec fn parallel_threshold() -> T {
        lit::<T>(9995).div_spec(lit::<T>(10000))
    }

    /// Whether the squared length is within `unit_tolerance` of one.
    pub open spec fn is_unit_spec(self) -> bool {
        lane_abs(lit::<T>(1).sub_spec(Vector::dot_spec(self.0, self.0))).is_lt(
            &Self::unit_tolerance(),
        )
    }

    /// Each step of `is_unit_spec` is defined.
    pub open spec fn is_unit_req(self) -> bool {
        &&& Vector::dot_req(self.0, self.0)
        &&& lit::<T>(1).div_req(lit::<T>(10000))
        &&& lit::<T>(1).sub_req(Vector::dot_spec(self.0, self.0))
        &&& lane_abs_req(lit::<T>(1).sub_spec(Vector::dot_spec(self.0, self.0)))
    }

    /// Whether the quaternion has length one, up to the tolerance that a
    /// spherical interpolation asks of its ends.
    pub fn is_unit(self) -> (r: bool)
        requires
            sound_ordered::<T>(),
            self.is_unit_req(),
        ensures
            exact_ordered::<T>() ==> r == self.is_unit_spec(),
    {
        nearly_equal(Self::dot(self, self), lane::<T>(1), lane::<T>(1) / lane::<T>(10000))
    }

    /// `from (1 - t) + to t`.
    pub open spec fn blend(from: Quaternion<T>, to: Quaternion<T>, t: T) -> Quaternion<T> {
        from.scaled(lit::<T>(1).sub_spec(t)).sum(to.scaled(t))
    }

    /// `to - from cos`.
    pub open spec fn rejection(from: Quaternion<T>, to: Quaternion<T>, cos: T) -> Quaternion<T> {
        to.difference(from.scaled(cos))
    }

    /// The first step of the interpolation from `from` to `to` by `t`: the
    /// blend of the two where their dot product is greater than
    /// `parallel_threshold`, else that dot product and the rejection of `to`
    /// from `from`.
    pub open spec fn slerp_start_spec(from: Quaternion<T>, to: Quaternion<T>, t: T) -> Slerp<T> {
        let cos = Vector::dot_spec(from.0, to.0);
        if cos.is_gt(&Self::parallel_threshold()) {
            Slerp::Linear(Self::blend(from, to, t))
        } else {
            Slerp::Spherical { cos, perp: Self::rejection(from, to, cos) }
        }
    }

    /// Each step of `slerp_start_spec` is defined, on the branch that is
    /// taken.
    pub open spec fn slerp_start_req(from: Quaternion<T>, to: Quaternion<T>, t: T) -> bool {
        let cos = Vector::dot_spec(from.0, to.0);
        &&& Vector::dot_req(from.0, to.0)
        &&& lit::<T>(9995).div_req(lit::<T>(10000))
        &&& if cos.is_gt(&Self::parallel_threshold()) {
            &&& lit::<T>(1).sub_req(t)
            &&& from.scaled_req(lit::<T>(1).sub_spec(t))
            &&& to.scaled_req(t)
            &&& from.scaled(lit::<T>(1).sub_spec(t)).sum_req(to.scaled(t))
        } else {
            &&& from.scaled_req(cos)
            &&& to.difference_req(from.scaled(cos))
        }
    }

    /// The first step of the spherical linear interpolation from `from` to
    /// `to` by the factor `t`, up to where a square root or an angle is
    /// needed. Both ends are unit quaternions. Near the parallel case the
    /// interpolation is linear, since the spherical formula divides by
    /// almost nothing there.
    pub fn slerp_start(from: Quaternion<T>, to: Quaternion<T>, t: T) -> (r: Slerp<T>)
        requires
            sound_ordered::<T>(),
            exact_ordered::<T>() ==> from.is_unit_spec() && to.is_unit_spec(),
            Self::slerp_start_req(from, to, t),
        ensures
            exact_ordered::<T>() ==> r == Self::slerp_start_spec(from, to, t),
    {
        let cos = Self::dot(from, to);
        if cos > lane::<T>(9995) / lane::<T>(10000) {
            Slerp::Linear(from * (lane::<T>(1) - t) + to * t)
        } else {
            Slerp::Spherical { cos, perp: to - from * cos }
        }
    }

    /// `from cos + perp sin`.
    pub open spec fn along(from: Quaternion<T>, perp: Quaternion<T>, cos: T, sin: T) -> Quaternion<
        T,
    > {
        from.scaled(cos).sum(perp.scaled(sin))
    }

    /// Each step of `along` is defined.
    pub open spec fn along_req(from: Quaternion<T>, perp: Quaternion<T>, cos: T, sin: T) -> bool {
        &&& from.scaled_req(cos)
        &&& perp.scaled_req(sin)
        &&& from.scaled(cos).sum_req(perp.scaled(sin))
    }

    /// The last step of a spherical interpolation: the point on the great
    /// circle through `from` and the unit quaternion `perp` orthogonal to it,
    /// at the angle whose cosine and sine are given.
    pub fn slerp_along(from: Quaternion<T>, perp: Quaternion<T>, cos: T, sin: T) -> (r: Quaternion<
        T,
    >)
        requires
            sound::<T>(),
            Self::along_req(from, perp, cos, sin),
        ensures
            exact::<T>() ==> r == Self::along(from, perp, cos, sin),
    {
        from * cos + perp * sin
    }
}

} // verus!
