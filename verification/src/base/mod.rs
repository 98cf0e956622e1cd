//! The base types: vectors, and the matrices and quaternions built on them.

pub mod matrix;
pub mod quaternion;
pub mod vector;

pub use matrix::Matrix;
pub use quaternion::{Quaternion, Slerp};
pub use vector::{shuffle_args, Vector};

use crate::base::vector::{abs_lane, lane_abs, lane_abs_req};
use crate::lane::{exact_ordered, sound_ordered, Lane};
use core::ops::Sub;
use vstd::prelude::*;
use vstd::std_specs::cmp::{PartialOrdIs, PartialOrdSpec};
use vstd::std_specs::ops::SubSpec;

verus! {

/// Whether `lhs` and `rhs` are closer to each other than `epsilon`.
pub open spec fn nearly_equal_spec<T: Lane + PartialOrd>(lhs: T, rhs: T, epsilon: T) -> bool {
    lane_abs(rhs.sub_spec(lhs)).is_lt(&epsilon)
}

/// Whether two lanes are equal up to `epsilon`: whether the absolute value
/// of their difference is less than `epsilon`.
pub fn nearly_equal<T: Lane + PartialOrd>(lhs: T, rhs: T, epsilon: T) -> (r: bool)
    requires
        sound_ordered::<T>(),
        rhs.sub_req(lhs),
        lane_abs_req(rhs.sub_spec(lhs)),
    ensures
        exact_ordered::<T>() ==> r == nearly_equal_spec(lhs, rhs, epsilon),
{
    abs_lane(rhs - lhs) < epsilon
}

} // verus!
