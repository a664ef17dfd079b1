//! What the library asks of a scalar type's operators.
//!
//! Every geometric routine here is generic over its scalar. The scalar's
//! arithmetic is reached through the standard operator traits, and each
//! routine names the operators it needs to be *total*: defined on every pair
//! of operands, and a function of them. Contracts are then stated over the
//! operators' spec functions (`add_spec`, `mul_spec`, ...), so they say
//! exactly which expression over the scalar's own arithmetic a routine
//! evaluates.

use crate::max::{total_max, Max};
use crate::min::{total_min, Min};
use crate::one::{spec_one, total_one, One};
use crate::zero::{spec_zero, total_zero, Zero};
use std::ops::{Add, Div, Mul, Neg, Sub};
use vstd::prelude::*;
use vstd::std_specs::cmp::{PartialOrdIs, PartialOrdSpec};
use vstd::std_specs::convert::FromSpec;
use vstd::std_specs::ops::{AddSpec, DivSpec, MulSpec, NegSpec, SubSpec};

verus! {

/// `+` on `T` accepts every pair of operands and returns `a.add_spec(b)`.
pub open spec fn total_add<T: Add<Output = T>>() -> bool {
    T::obeys_add_spec() && forall|a: T, b: T| #[trigger] a.add_req(b)
}

/// `-` on `T` accepts every pair of operands and returns `a.sub_spec(b)`.
pub open spec fn total_sub<T: Sub<Output = T>>() -> bool {
    T::obeys_sub_spec() && forall|a: T, b: T| #[trigger] a.sub_req(b)
}

/// `*` on `T` accepts every pair of operands and returns `a.mul_spec(b)`.
pub open spec fn total_mul<T: Mul<Output = T>>() -> bool {
    T::obeys_mul_spec() && forall|a: T, b: T| #[trigger] a.mul_req(b)
}

/// `/` on `T` accepts every pair of operands, a zero divisor included, and
/// returns `a.div_spec(b)`.
pub open spec fn total_div<T: Div<Output = T>>() -> bool {
    T::obeys_div_spec() && forall|a: T, b: T| #[trigger] a.div_req(b)
}

/// Unary `-` on `T` accepts every operand and returns `a.neg_spec()`.
pub open spec fn total_neg<T: Neg<Output = T>>() -> bool {
    T::obeys_neg_spec() && forall|a: T| #[trigger] a.neg_req()
}

/// The comparison operators of `T` answer as its `partial_cmp_spec` says.
pub open spec fn total_order<T: PartialOrd>() -> bool {
    T::obeys_partial_cmp_spec()
}

/// `T::from` on an `i32` returns `T::from_spec` of it.
pub open spec fn total_from_i32<T: From<i32>>() -> bool {
    <T as FromSpec<i32>>::obeys_from_spec()
}

/// `a < b`, as the comparison of `T` has it.
pub open spec fn less<T: PartialOrd>(a: T, b: T) -> bool {
    a.is_lt(&b)
}

/// All that the ray traversals ask of their scalar: the four operations of
/// arithmetic and the negation are total, the comparisons follow one order,
/// and zero, one, the minimum and the maximum are functions.
pub open spec fn total_field<T>() -> bool where
    T: Add<Output = T> + Sub<Output = T> + Mul<Output = T> + Div<Output = T> + Neg<
        Output = T,
    > + PartialOrd + Zero + One + Min + Max,
 {
    &&& total_add::<T>()
    &&& total_sub::<T>()
    &&& total_mul::<T>()
    &&& total_div::<T>()
    &&& total_neg::<T>()
    &&& total_order::<T>()
    &&& total_zero::<T>()
    &&& total_one::<T>()
    &&& total_min::<T>()
    &&& total_max::<T>()
}

/// One divided by one plus one.
pub open spec fn spec_half<T>() -> T where T: Add<Output = T> + Div<Output = T> + One {
    spec_one::<T>().div_spec(spec_one::<T>().add_spec(spec_one::<T>()))
}

/// One half, as the scalar's own arithmetic gives it.
pub fn half<T>() -> (r: T) where T: Add<Output = T> + Div<Output = T> + One
    requires
        total_add::<T>(),
        total_div::<T>(),
        total_one::<T>(),
    ensures
        r == spec_half::<T>(),
{
    T::one() / (T::one() + T::one())
}

/// `a` with its sign taken off: the negation of `a` where `a` is less than
/// zero, else `a` itself.
pub open spec fn spec_abs<T>(a: T) -> T where T: Neg<Output = T> + PartialOrd + Zero {
    if a.is_lt(&spec_zero::<T>()) {
        a.neg_spec()
    } else {
        a
    }
}

/// The absolute value, by comparison with zero.
pub fn abs<T>(a: T) -> (r: T) where T: Neg<Output = T> + PartialOrd + Zero + Copy
    requires
        total_neg::<T>(),
        total_order::<T>(),
        total_zero::<T>(),
    ensures
        r == spec_abs(a),
{
    if a < T::zero() {
        a.neg()
    } else {
        a
    }
}

} // verus!
