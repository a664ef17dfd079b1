use vstd::prelude::*;

verus! {

/// A scalar type with an additive identity.
pub trait Zero: Sized {
    fn zero() -> Self;
}

/// The value that `T::zero()` returns, where `total_zero` holds.
pub open spec fn spec_zero<T: Zero>() -> T {
    choose|r: T| call_ensures(T::zero, (), r)
}

/// `T::zero()` returns the same value at every call.
pub open spec fn total_zero<T: Zero>() -> bool {
    forall|r1: T, r2: T|
        call_ensures(T::zero, (), r1) && call_ensures(T::zero, (), r2) ==> r1 == r2
}

} // verus!
