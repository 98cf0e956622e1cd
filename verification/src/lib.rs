//! Fixed-size geometric primitives for 3D graphics: four-lane vectors, 4x4
//! matrices, quaternions, and the points, directions, normals and affine
//! transforms built on them.
//!
//! Every type is generic over the type of its lanes, which brings its own
//! arithmetic: `f32` for graphics, `i64` where results have to be exact. The
//! contracts state, lane by lane and in the order of the operations, what
//! each function returns for a lane type whose arithmetic is exact, and no
//! function assumes a law of algebra that rounding would break. What moves
//! lanes without computing on them (the shuffles, the transpose, the
//! accessors) is stated for every lane type.
//!
//! [`algebra`] shows what the formulas are worth over the integers: that the
//! determinant by 2x2 blocks is the determinant, that the closed-form inverse
//! inverts, and which bounds keep both free of overflow.

pub mod algebra;
pub mod base;
pub mod coordinate_system;
pub mod direction;
pub mod lane;
pub mod normal;
pub mod point;
pub mod rotation;
pub mod transform;

pub use direction::Direction;
pub use lane::Lane;
pub use normal::Normal;
pub use point::Point;
pub use rotation::{EulerAngles, HalfAngles, Rotation, RotationOrder};
pub use transform::Transform;

use vstd::prelude::*;

verus! {

/// Whether each of four lane indices names one of the four lanes.
pub open spec fn valid_shuffle(x: u32, y: u32, z: u32, w: u32) -> bool {
    x < 4 && y < 4 && z < 4 && w < 4
}

/// Whether four indices may be handed to a shuffle.
pub fn is_shuffle_arg(x: u32, y: u32, z: u32, w: u32) -> (r: bool)
    ensures
        r == valid_shuffle(x, y, z, w),
{
    x < 4 && y < 4 && z < 4 && w < 4
}

/// The four indices packed two bits each, `w` lowest, before the result is
/// reinterpreted as a signed number.
pub open spec fn packed_indices(z: u32, y: u32, x: u32, w: u32) -> u32 {
    (z << 6) | (y << 4) | (x << 2) | w
}

/// The immediate operand that selects a shuffle in an instruction set that
/// encodes the four indices in one byte. For four valid indices that is
/// `64 * z + 16 * y + 4 * x + w`.
pub fn shuffle_mask(z: u32, y: u32, x: u32, w: u32) -> (r: i32)
    ensures
        r == packed_indices(z, y, x, w) as i32,
        valid_shuffle(x, y, z, w) ==> r == 64 * z + 16 * y + 4 * x + w,
{
    assert(z < 4 && y < 4 && x < 4 && w < 4 ==> ((z << 6) | (y << 4) | (x << 2) | w) == 64 * z + 16
        * y + 4 * x + w) by (bit_vector);
    ((z << 6) | (y << 4) | (x << 2) | w) as i32
}

/// A constant condition, lifted to a type.
pub struct Check<const V: bool>;

/// Holds of `Check<true>` alone.
pub trait True {

}

/// Holds of `Check<false>` alone.
pub trait False {

}

impl True for Check<true> {

}

impl False for Check<false> {

}

} // verus!
