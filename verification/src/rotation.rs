//! Rotations.

use crate::base::quaternion::Quaternion;
use crate::base::vector::Vector;
use crate::coordinate_system::{Axis, AxisMapping};
use crate::direction::Direction;
use crate::lane::{exact, sound, Lane};
use core::ops::Mul;
use vstd::prelude::*;
use vstd::std_specs::cmp::PartialEqSpec;
use vstd::std_specs::ops::MulSpec;

verus! {

/// The order in which the three rotations of a set of Euler angles are
/// applied.
#[derive(Clone, Copy, Debug, PartialEq, Eq, Structural)]
pub enum RotationOrder {
    /// Pitch, yaw, and then roll.
    PYR,
    /// Pitch, roll, yaw.
    PRY,
    /// Roll, pitch, yaw.
    RPY,
    /// Roll, yaw, pitch.
    RYP,
    /// Yaw, pitch, roll.
    YPR,
    /// Yaw, roll, pitch.
    YRP,
}

/// A rotation by Euler angles, in radians. A positive angle turns
/// anti-clockwise.
#[derive(Clone, Copy, Debug)]
pub struct EulerAngles<T> {
    /// The angle about the axis that points right, seen along that axis from
    /// the origin.
    pub pitch: T,
    /// The angle about the axis that points up.
    pub yaw: T,
    /// The angle about the axis that points forward.
    pub roll: T,
    /// The order of the three rotations.
    pub order: RotationOrder,
}

/// The sine and the cosine of half of each Euler angle.
#[derive(Clone, Copy, Debug)]
pub struct HalfAngles<T> {
    pub sin_pitch: T,
    pub cos_pitch: T,
    pub sin_yaw: T,
    pub cos_yaw: T,
    pub sin_roll: T,
    pub cos_roll: T,
}

/// A rotation in 3D space, held as a quaternion.
#[derive(Clone, Copy, Debug)]
pub struct Rotation<T>(pub Quaternion<T>);

impl<T: PartialEq> Rotation<T> {
    /// Each lane of `self` equals the same lane of `other`, as the lane type
    /// compares.
    pub open spec fn same_lanes(self, other: Rotation<T>) -> bool {
        self.0.same_lanes(other.0)
    }
}

impl<T: PartialEq> PartialEq for Rotation<T> {
    /// Whether the two rotations are equal, quaternion to quaternion, lane
    /// by lane.
    fn eq(&self, other: &Rotation<T>) -> (r: bool)
        ensures
            T::obeys_eq_spec() ==> r == self.same_lanes(*other),
    {
        self.0 == other.0
    }
}

impl<T: PartialEq> vstd::std_specs::cmp::PartialEqSpecImpl for Rotation<T> {
    open spec fn obeys_eq_spec() -> bool {
        T::obeys_eq_spec()
    }

    open spec fn eq_spec(&self, other: &Rotation<T>) -> bool {
        self.same_lanes(*other)
    }
}


impl<T: Lane> Rotation<T> {
    /// The quaternion of the rotation about `axis` by an angle whose half
    /// has the sine `sin` and the cosine `cos`.
    pub open spec fn about(axis: Axis, sin: T, cos: T) -> Quaternion<T> {
        let d = axis.direction::<T>().0.scaled(sin);
        Quaternion(Vector { x: d.x, y: d.y, z: d.z, w: cos })
    }

    /// Each multiplication of `about` is defined.
    pub open spec fn about_req(axis: Axis, sin: T) -> bool {
        axis.direction::<T>().0.scaled_req(sin)
    }

    /// The three factors of a rotation by Euler angles, in the order in
    /// which they are multiplied.
    pub open spec fn factors(half: HalfAngles<T>, order: RotationOrder, mapping: AxisMapping) -> (
        Quaternion<T>,
        Quaternion<T>,
        Quaternion<T>,
    ) {
        let pitch = Self::about(mapping.right, half.sin_pitch, half.cos_pitch);
        let yaw = Self::about(mapping.up, half.sin_yaw, half.cos_yaw);
        let roll = Self::about(mapping.forward, half.sin_roll, half.cos_roll);
        match order {
            RotationOrder::PYR => (pitch, yaw, roll),
            RotationOrder::PRY => (pitch, roll, yaw),
            RotationOrder::RPY => (roll, pitch, yaw),
            RotationOrder::RYP => (roll, yaw, pitch),
            RotationOrder::YPR => (yaw, pitch, roll),
            RotationOrder::YRP => (yaw, roll, pitch),
        }
    }

    /// The rotation by Euler angles: the product of its three factors, from
    /// the left.
    pub open spec fn euler_spec(
        half: HalfAngles<T>,
        order: RotationOrder,
        mapping: AxisMapping,
    ) -> Rotation<T> {
        let f = Self::factors(half, order, mapping);
        Rotation(f.0.hamilton(f.1).hamilton(f.2))
    }

    /// The arithmetic of `T` can be chained, and each step of `euler_spec`
    /// is defined.
    pub open spec fn euler_req(
        half: HalfAngles<T>,
        order: RotationOrder,
        mapping: AxisMapping,
    ) -> bool {
        let f = Self::factors(half, order, mapping);
        &&& sound::<T>()
        &&& Self::about_req(mapping.right, half.sin_pitch)
        &&& Self::about_req(mapping.up, half.sin_yaw)
        &&& Self::about_req(mapping.forward, half.sin_roll)
        &&& f.0.hamilton_req(f.1)
        &&& f.0.hamilton(f.1).hamilton_req(f.2)
    }

    /// The rotation by Euler angles, from the sines and cosines of the half
    /// angles: about each of the three mapped axes a quaternion whose vector
    /// part is the axis times the sine and whose scalar part is the cosine,
    /// the three multiplied in the given order.
    pub fn euler(
        half: HalfAngles<T>,
        order: RotationOrder,
        mapping: AxisMapping,
    ) -> (r: Rotation<T>)
        requires
            Self::euler_req(half, order, mapping),
        ensures
            exact::<T>() ==> r == Self::euler_spec(half, order, mapping),
    {
        let right: Direction<T> = Direction::from(mapping.right);
        let forward: Direction<T> = Direction::from(mapping.forward);
        let up: Direction<T> = Direction::from(mapping.up);

        let mut pitch = Quaternion(right.0 * half.sin_pitch);
        pitch.set_w(half.cos_pitch);
        let mut yaw = Quaternion(up.0 * half.sin_yaw);
        yaw.set_w(half.cos_yaw);
        let mut roll = Quaternion(forward.0 * half.sin_roll);
        roll.set_w(half.cos_roll);

        Rotation(
            match order {
                RotationOrder::PYR => pitch * yaw * roll,
                RotationOrder::PRY => pitch * roll * yaw,
                RotationOrder::RPY => roll * pitch * yaw,
                RotationOrder::RYP => roll * yaw * pitch,
                RotationOrder::YPR => yaw * pitch * roll,
                RotationOrder::YRP => yaw * roll * pitch,
            },
        )
    }
}

} // verus!
