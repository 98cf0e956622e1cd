//! Coordinate systems.

use crate::base::vector::Vector;
use crate::direction::Direction;
use crate::lane::{exact, lane, lit, Lane};
use vstd::prelude::*;

verus! {

/// One of the six directions along an axis.
#[derive(Clone, Copy, Debug, PartialEq, Eq, Structural)]
pub enum Axis {
    /// +x
    PosX,
    /// +y
    PosY,
    /// +z
    PosZ,
    /// -x
    NegX,
    /// -y
    NegY,
    /// -z
    NegZ,
}

/// Which axis direction a viewer calls right, forward and up.
#[derive(Clone, Copy, Debug, PartialEq, Eq, Structural)]
pub struct AxisMapping {
    /// The axis direction that points to the right.
    pub right: Axis,
    /// The axis direction that points forward.
    pub forward: Axis,
    /// The axis direction that points up.
    pub up: Axis,
}

impl Axis {
    /// The three coordinates of the unit direction along the axis: each is
    /// -1, 0 or 1.
    pub open spec fn coordinates(self) -> (int, int, int) {
        match self {
            Axis::PosX => (1, 0, 0),
            Axis::NegX => (-1, 0, 0),
            Axis::PosY => (0, 1, 0),
            Axis::NegY => (0, -1, 0),
            Axis::PosZ => (0, 0, 1),
            Axis::NegZ => (0, 0, -1),
        }
    }

    /// The unit direction along the axis.
    pub open spec fn direction<T: Lane>(self) -> Direction<T> {
        let c = self.coordinates();
        Direction::at(lit::<T>(c.0), lit::<T>(c.1), lit::<T>(c.2))
    }
}

impl<T: Lane> From<Axis> for Direction<T> {
    /// The unit direction along the axis.
    fn from(axis: Axis) -> (r: Direction<T>)
        ensures
            exact::<T>() ==> r == axis.direction::<T>(),
    {
        let o = lane::<T>(1);
        let n = lane::<T>(-1);
        let z = lane::<T>(0);
        match axis {
            Axis::PosX => Direction::new(o, z, z),
            Axis::NegX => Direction::new(n, z, z),
            Axis::PosY => Direction::new(z, o, z),
            Axis::NegY => Direction::new(z, n, z),
            Axis::PosZ => Direction::new(z, z, o),
            Axis::NegZ => Direction::new(z, z, n),
        }
    }
}

impl<T: Lane> vstd::std_specs::convert::FromSpecImpl<Axis> for Direction<T> {
    open spec fn obeys_from_spec() -> bool {
        exact::<T>()
    }

    open spec fn from_spec(axis: Axis) -> Direction<T> {
        axis.direction()
    }
}

} // verus!
