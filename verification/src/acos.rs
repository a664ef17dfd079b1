use vstd::prelude::*;

verus! {

/// A scalar type with an arc cosine, the angle in radians.
pub trait Acos: Sized {
    fn acos(self) -> Self;
}

/// The value that `a.acos()` returns, where `total_acos` holds.
pub open spec fn spec_acos<T: Acos>(a: T) -> T {
    choose|r: T| call_ensures(T::acos, (a,), r)
}

/// `acos` on `T` is a function of its operand.
pub open spec fn total_acos<T: Acos>() -> bool {
    forall|a: T, r1: T, r2: T|
        call_ensures(T::acos, (a,), r1) && call_ensures(T::acos, (a,), r2) ==> r1 == r2
}

} // verus!
