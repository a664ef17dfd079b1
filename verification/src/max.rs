use vstd::prelude::*;

verus! {

/// A scalar type with a binary maximum.
pub trait Max: Sized {
    fn max(self, b: Self) -> Self;
}

/// The value that `a.max(b)` returns, where `total_max` holds.
pub open spec fn spec_max<T: Max>(a: T, b: T) -> T {
    choose|r: T| call_ensures(T::max, (a, b), r)
}

/// `max` on `T` is a function of its two operands.
pub open spec fn total_max<T: Max>() -> bool {
    forall|a: T, b: T, r1: T, r2: T|
        call_ensures(T::max, (a, b), r1) && call_ensures(T::max, (a, b), r2) ==> r1 == r2
}

} // verus!
