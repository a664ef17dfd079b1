use vstd::prelude::*;

verus! {

/// A scalar type with a binary minimum.
pub trait Min: Sized {
    fn min(self, b: Self) -> Self;
}

/// The value that `a.min(b)` returns, where `total_min` holds.
pub open spec fn spec_min<T: Min>(a: T, b: T) -> T {
    choose|r: T| call_ensures(T::min, (a, b), r)
}

/// `min` on `T` is a function of its two operands.
pub open spec fn total_min<T: Min>() -> bool {
    forall|a: T, b: T, r1: T, r2: T|
        call_ensures(T::min, (a, b), r1) && call_ensures(T::min, (a, b), r2) ==> r1 == r2
}

} // verus!
