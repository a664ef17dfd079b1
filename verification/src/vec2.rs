use crate::scalar::{total_add, total_div, total_mul};
use crate::sqrt::{spec_sqrt, total_sqrt, Sqrt};
use std::ops::{Add, Div, Mul, Sub};
use vstd::prelude::*;
use vstd::std_specs::ops::{AddSpec, AddSpecImpl, DivSpec, MulSpec, MulSpecImpl, SubSpec, SubSpecImpl};

verus! {

/// A vector in the plane.
#[derive(Clone, Copy)]
pub struct Vec2<T> {
    pub x: T,
    pub y: T,
}

impl<T: Copy> Vec2<T> {
    /// The vector of the two components.
    pub fn new(x: T, y: T) -> (r: Vec2<T>)
        ensures
            r == (Vec2 { x, y }),
    {
        Vec2 { x, y }
    }

    /// `x * rhs.x + y * rhs.y`.
    pub open spec fn spec_dot(self, rhs: Vec2<T>) -> T where T: Add<Output = T> + Mul<Output = T> {
        self.x.mul_spec(rhs.x).add_spec(self.y.mul_spec(rhs.y))
    }

    /// The dot product with `rhs`.
    pub fn dot(self, rhs: Vec2<T>) -> (r: T) where T: Add<Output = T> + Mul<Output = T>
        requires
            total_add::<T>(),
            total_mul::<T>(),
        ensures
            r == self.spec_dot(rhs),
    {
        self.x * rhs.x + self.y * rhs.y
    }

    /// The dot product of the vector with itself.
    pub open spec fn spec_length_squared(self) -> T where T: Add<Output = T> + Mul<Output = T> {
        self.spec_dot(self)
    }

    /// The square of the length.
    pub fn length_squared(&self) -> (r: T) where T: Add<Output = T> + Mul<Output = T>
        requires
            total_add::<T>(),
            total_mul::<T>(),
        ensures
            r == self.spec_length_squared(),
    {
        self.x * self.x + self.y * self.y
    }

    /// The square root of `spec_length_squared`.
    pub open spec fn spec_length(self) -> T where
        T: Add<Output = T> + Mul<Output = T> + Sqrt<Output = T>,
     {
        spec_sqrt(self.spec_length_squared())
    }

    /// The length.
    pub fn length(&self) -> (r: T) where T: Add<Output = T> + Mul<Output = T> + Sqrt<Output = T>
        requires
            total_add::<T>(),
            total_mul::<T>(),
            total_sqrt::<T>(),
        ensures
            r == self.spec_length(),
    {
        self.length_squared().sqrt()
    }

    /// Each component divided by `spec_length`.
    pub open spec fn spec_normalize(self) -> Vec2<T> where
        T: Add<Output = T> + Mul<Output = T> + Div<Output = T> + Sqrt<Output = T>,
     {
        Vec2 {
            x: self.x.div_spec(self.spec_length()),
            y: self.y.div_spec(self.spec_length()),
        }
    }

    /// Scales the vector by the inverse of its length. A vector of length
    /// zero is divided by zero, component by component, as the scalar's `/`
    /// defines it.
    pub fn normalize(self) -> (r: Vec2<T>) where
        T: Add<Output = T> + Mul<Output = T> + Div<Output = T> + Sqrt<Output = T>,

        requires
            total_add::<T>(),
            total_mul::<T>(),
            total_div::<T>(),
            total_sqrt::<T>(),
        ensures
            r == self.spec_normalize(),
    {
        let len = self.length();
        Vec2::new(self.x / len, self.y / len)
    }
}

impl<T> Vec2<T> {
    /// The sum, component by component: what `+` returns.
    pub open spec fn spec_sum(self, rhs: Vec2<T>) -> Vec2<T> where T: Add<Output = T> {
        Vec2 { x: self.x.add_spec(rhs.x), y: self.y.add_spec(rhs.y) }
    }

    /// The difference, component by component: what `-` returns.
    pub open spec fn spec_difference(self, rhs: Vec2<T>) -> Vec2<T> where T: Sub<Output = T> {
        Vec2 { x: self.x.sub_spec(rhs.x), y: self.y.sub_spec(rhs.y) }
    }

    /// Each component times `rhs`: what `*` by a scalar returns.
    pub open spec fn spec_scaled(self, rhs: T) -> Vec2<T> where T: Mul<Output = T> {
        Vec2 { x: self.x.mul_spec(rhs), y: self.y.mul_spec(rhs) }
    }
}

impl<T: Add<Output = T>> Add for Vec2<T> {
    type Output = Vec2<T>;

    fn add(self, rhs: Vec2<T>) -> (r: Vec2<T>) {
        Vec2 { x: self.x + rhs.x, y: self.y + rhs.y }
    }
}

impl<T: Add<Output = T>> AddSpecImpl for Vec2<T> {
    open spec fn obeys_add_spec() -> bool {
        T::obeys_add_spec()
    }

    open spec fn add_req(self, rhs: Vec2<T>) -> bool {
        self.x.add_req(rhs.x) && self.y.add_req(rhs.y)
    }

    open spec fn add_spec(self, rhs: Vec2<T>) -> Vec2<T> {
        self.spec_sum(rhs)
    }
}

impl<T: Sub<Output = T>> Sub for Vec2<T> {
    type Output = Vec2<T>;

    fn sub(self, rhs: Vec2<T>) -> (r: Vec2<T>) {
        Vec2 { x: self.x - rhs.x, y: self.y - rhs.y }
    }
}

impl<T: Sub<Output = T>> SubSpecImpl for Vec2<T> {
    open spec fn obeys_sub_spec() -> bool {
        T::obeys_sub_spec()
    }

    open spec fn sub_req(self, rhs: Vec2<T>) -> bool {
        self.x.sub_req(rhs.x) && self.y.sub_req(rhs.y)
    }

    open spec fn sub_spec(self, rhs: Vec2<T>) -> Vec2<T> {
        self.spec_difference(rhs)
    }
}

impl<T: Mul<Output = T> + Copy> Mul<T> for Vec2<T> {
    type Output = Vec2<T>;

    fn mul(self, rhs: T) -> (r: Vec2<T>) {
        Vec2 { x: self.x * rhs, y: self.y * rhs }
    }
}

impl<T: Mul<Output = T> + Copy> MulSpecImpl<T> for Vec2<T> {
    open spec fn obeys_mul_spec() -> bool {
        T::obeys_mul_spec()
    }

    open spec fn mul_req(self, rhs: T) -> bool {
        self.x.mul_req(rhs) && self.y.mul_req(rhs)
    }

    open spec fn mul_spec(self, rhs: T) -> Vec2<T> {
        self.spec_scaled(rhs)
    }
}

} // verus!
