use vstd::prelude::*;

verus! {

/// A scalar type that can be cut down to a whole number: the conversion
/// that names the grid cell a coordinate lies in.
pub trait Truncate: Sized {
    /// The whole number nearest to `self` of those between it and zero; the
    /// nearest `i32` where `self` is beyond them all.
    fn truncate(self) -> i32;
}

/// The value that `a.truncate()` returns, where `total_truncate` holds.
pub open spec fn spec_truncate<T: Truncate>(a: T) -> i32 {
    choose|r: i32| call_ensures(T::truncate, (a,), r)
}

/// `truncate` on `T` is a function of its operand.
pub open spec fn total_truncate<T: Truncate>() -> bool {
    forall|a: T, r1: i32, r2: i32|
        call_ensures(T::truncate, (a,), r1) && call_ensures(T::truncate, (a,), r2) ==> r1 == r2
}

} // verus!
