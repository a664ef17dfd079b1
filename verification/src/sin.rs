use vstd::prelude::*;

verus! {

/// A scalar type with a sine, the angle in radians.
pub trait Sin: Sized {
    fn sin(self) -> Self;
}

/// The value that `a.sin()` returns, where `total_sin` holds.
pub open spec fn spec_sin<T: Sin>(a: T) -> T {
    choose|r: T| call_ensures(T::sin, (a,), r)
}

/// `sin` on `T` is a function of its operand.
pub open spec fn total_sin<T: Sin>() -> bool {
    forall|a: T, r1: T, r2: T|
        call_ensures(T::sin, (a,), r1) && call_ensures(T::sin, (a,), r2) ==> r1 == r2
}

} // verus!
