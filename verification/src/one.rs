use vstd::prelude::*;

verus! {

/// A scalar type with a multiplicative identity.
pub trait One: Sized {
    fn one() -> Self;
}

/// The value that `T::one()` returns, where `total_one` holds.
pub open spec fn spec_one<T: One>() -> T {
    choose|r: T| call_ensures(T::one, (), r)
}

/// `T::one()` returns the same value at every call.
pub open spec fn total_one<T: One>() -> bool {
    forall|r1: T, r2: T| call_ensures(T::one, (), r1) && call_ensures(T::one, (), r2) ==> r1 == r2
}

} // verus!
