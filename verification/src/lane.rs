//! The scalar type of a lane.
//!
//! Every type of this crate is generic over the type `T` of its lanes. A lane
//! type brings its own arithmetic through the operator traits of `core::ops`,
//! and is built from small integers through `From<i16>`. What an operation
//! returns is stated over the specification functions that `vstd` attaches
//! to those traits (`add_spec`, `mul_spec`, ...), so a contract holds lane by
//! lane, in the order in which the operations are applied, and assumes no
//! law of algebra that a rounding lane type would break.

use core::ops::{Add, Div, Mul, Neg, Sub};
use vstd::prelude::*;
use vstd::std_specs::cmp::PartialOrdSpec;
use vstd::std_specs::convert::FromSpec;
use vstd::std_specs::ops::{AddSpec, DivSpec, MulSpec, NegSpec, SubSpec};

verus! {

/// A type that can fill the lanes of a vector.
pub trait Lane: Copy + From<i16> + Add<Output = Self> + Sub<Output = Self> + Mul<
    Output = Self,
> + Div<Output = Self> + Neg<Output = Self> {

}

impl<T> Lane for T where
    T: Copy + From<i16> + Add<Output = T> + Sub<Output = T> + Mul<Output = T> + Div<
        Output = T,
    > + Neg<Output = T>,
 {

}

/// The lane that stands for the small integer `n`, for `n` from -32768 to
/// 32767.
pub open spec fn lit<T: Lane>(n: int) -> T {
    T::from_spec(n as i16)
}

/// Each arithmetic operation on `T`, and each conversion from a small
/// integer, returns exactly the value that its specification function names.
pub open spec fn exact<T: Lane>() -> bool {
    &&& T::obeys_add_spec()
    &&& T::obeys_sub_spec()
    &&& T::obeys_mul_spec()
    &&& T::obeys_div_spec()
    &&& T::obeys_neg_spec()
    &&& <T as FromSpec<i16>>::obeys_from_spec()
}

/// Each arithmetic operation on `T` is defined on all operands.
pub open spec fn total<T: Lane>() -> bool {
    &&& forall|a: T, b: T| #[trigger] a.add_req(b)
    &&& forall|a: T, b: T| #[trigger] a.sub_req(b)
    &&& forall|a: T, b: T| #[trigger] a.mul_req(b)
    &&& forall|a: T, b: T| #[trigger] a.div_req(b)
    &&& forall|a: T| #[trigger] a.neg_req()
}

/// The arithmetic of `T` can be chained: either it is exact, so that the
/// operands of a later step are known from the earlier ones, or it is total,
/// so that a later step is defined whatever the earlier ones gave.
pub open spec fn sound<T: Lane>() -> bool {
    exact::<T>() || total::<T>()
}

/// `T` is exact, and so are its comparisons.
pub open spec fn exact_ordered<T: Lane + PartialOrd>() -> bool {
    exact::<T>() && T::obeys_partial_cmp_spec()
}

/// The arithmetic of `T` can be chained with its comparisons.
pub open spec fn sound_ordered<T: Lane + PartialOrd>() -> bool {
    exact_ordered::<T>() || total::<T>()
}

/// The lane that stands for the small integer `n`.
pub fn lane<T: Lane>(n: i16) -> (r: T)
    ensures
        exact::<T>() ==> r == lit::<T>(n as int),
{
    T::from(n)
}

} // verus!
