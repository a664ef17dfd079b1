use vstd::prelude::*;

verus! {

/// A scalar type with a constant for the number two.
pub trait Two: Sized {
    fn two() -> Self;
}

/// The value that `T::two()` returns, where `total_two` holds.
pub open spec fn spec_two<T: Two>() -> T {
    choose|r: T| call_ensures(T::two, (), r)
}

/// `T::two()` returns the same value at every call.
pub open spec fn total_two<T: Two>() -> bool {
    forall|r1: T, r2: T| call_ensures(T::two, (), r1) && call_ensures(T::two, (), r2) ==> r1 == r2
}

} // verus!
