use vstd::prelude::*;

verus! {

/// A scalar type with a square root.
pub trait Sqrt: Sized {
    type Output;

    fn sqrt(self) -> Self::Output;
}

/// The value that `a.sqrt()` returns, where `total_sqrt` holds.
pub open spec fn spec_sqrt<T: Sqrt>(a: T) -> T::Output {
    choose|r: T::Output| call_ensures(T::sqrt, (a,), r)
}

/// `sqrt` on `T` is a function of its operand.
pub open spec fn total_sqrt<T: Sqrt>() -> bool {
    forall|a: T, r1: T::Output, r2: T::Output|
        call_ensures(T::sqrt, (a,), r1) && call_ensures(T::sqrt, (a,), r2) ==> r1 == r2
}

} // verus!
