use crate::scalar::{total_add, total_div, total_mul, total_sub};
use crate::sqrt::{spec_sqrt, total_sqrt, Sqrt};
use std::ops::{Add, Div, Mul, Sub};
use vstd::prelude::*;
use vstd::std_specs::ops::{AddSpec, AddSpecImpl, DivSpec, MulSpec, MulSpecImpl, SubSpec, SubSpecImpl};

verus! {

/// A vector in space.
#[derive(Clone, Copy)]
pub struct Vec3<T> {
    pub x: T,
    pub y: T,
    pub z: T,
}

impl<T: Copy> Vec3<T> {
    /// The vector of the three components.
    pub fn new(x: T, y: T, z: T) -> (r: Vec3<T>)
        ensures
            r == (Vec3 { x, y, z }),
    {
        Vec3 { x, y, z }
    }

    /// `x * rhs.x + y * rhs.y + z * rhs.z`, summed from the left.
    pub open spec fn spec_dot(self, rhs: Vec3<T>) -> T where T: Add<Output = T> + Mul<Output = T> {
        self.x.mul_spec(rhs.x).add_spec(self.y.mul_spec(rhs.y)).add_spec(self.z.mul_spec(rhs.z))
    }

    /// The dot product with `rhs`.
    pub fn dot(self, rhs: Vec3<T>) -> (r: T) where T: Add<Output = T> + Mul<Output = T>
        requires
            total_add::<T>(),
            total_mul::<T>(),
        ensures
            r == self.spec_dot(rhs),
    {
        self.x * rhs.x + self.y * rhs.y + self.z * rhs.z
    }

    /// The right-handed cross product.
    pub open spec fn spec_cross(self, rhs: Vec3<T>) -> Vec3<T> where
        T: Sub<Output = T> + Mul<Output = T>,
     {
        Vec3 {
            x: self.y.mul_spec(rhs.z).sub_spec(self.z.mul_spec(rhs.y)),
            y: self.z.mul_spec(rhs.x).sub_spec(self.x.mul_spec(rhs.z)),
            z: self.x.mul_spec(rhs.y).sub_spec(self.y.mul_spec(rhs.x)),
        }
    }

    /// The cross product with `rhs`.
    pub fn cross(self, rhs: Vec3<T>) -> (r: Vec3<T>) where T: Sub<Output = T> + Mul<Output = T>
        requires
            total_sub::<T>(),
            total_mul::<T>(),
        ensures
            r == self.spec_cross(rhs),
    {
        Vec3 {
            x: self.y * rhs.z - self.z * rhs.y,
            y: self.z * rhs.x - self.x * rhs.z,
            z: self.x * rhs.y - self.y * rhs.x,
        }
    }

    /// The dot product of the vector with itself.
    pub open spec fn spec_length_squared(self) -> T where T: Add<Output = T> + Mul<Output = T> {
        self.spec_dot(self)
    }

    /// The square of the length.
    pub fn length_squared(&self) -> (r: T) where T: Add<Output = T> + Mul<Output = T>
        requires
            total_add::<T>(),
            total_mul::<T>(),
        ensures
            r == self.spec_length_squared(),
    {
        self.x * self.x + self.y * self.y + self.z * self.z
    }

    /// The square root of `spec_length_squared`.
    pub open spec fn spec_length(self) -> T where
        T: Add<Output = T> + Mul<Output = T> + Sqrt<Output = T>,
     {
        spec_sqrt(self.spec_length_squared())
    }

    /// The length.
    pub fn length(&self) -> (r: T) where T: Add<Output = T> + Mul<Output = T> + Sqrt<Output = T>
        requires
            total_add::<T>(),
            total_mul::<T>(),
            total_sqrt::<T>(),
        ensures
            r == self.spec_length(),
    {
        self.length_squared().sqrt()
    }

    /// Each component divided by `spec_length`.
    pub open spec fn spec_normalize(self) -> Vec3<T> where
        T: Add<Output = T> + Mul<Output = T> + Div<Output = T> + Sqrt<Output = T>,
     {
        Vec3 {
            x: self.x.div_spec(self.spec_length()),
            y: self.y.div_spec(self.spec_length()),
            z: self.z.div_spec(self.spec_length()),
        }
    }

    /// Scales the vector by the inverse of its length. A vector of length
    /// zero is divided by zero, component by component, as the scalar's `/`
    /// defines it.
    pub fn normalize(self) -> (r: Vec3<T>) where
        T: Add<Output = T> + Mul<Output = T> + Div<Output = T> + Sqrt<Output = T>,

        requires
            total_add::<T>(),
            total_mul::<T>(),
            total_div::<T>(),
            total_sqrt::<T>(),
        ensures
            r == self.spec_normalize(),
    {
        let len = self.length();
        Vec3::new(self.x / len, self.y / len, self.z / len)
    }
}

impl<T> Vec3<T> {
    /// The sum, component by component: what `+` returns.
    pub open spec fn spec_sum(self, rhs: Vec3<T>) -> Vec3<T> where T: Add<Output = T> {
        Vec3 {
            x: self.x.add_spec(rhs.x),
            y: self.y.add_spec(rhs.y),
            z: self.z.add_spec(rhs.z),
        }
    }

    /// The difference, component by component: what `-` returns.
    pub open spec fn spec_difference(self, rhs: Vec3<T>) -> Vec3<T> where T: Sub<Output = T> {
        Vec3 {
            x: self.x.sub_spec(rhs.x),
            y: self.y.sub_spec(rhs.y),
            z: self.z.sub_spec(rhs.z),
        }
    }

    /// Each component times `rhs`: what `*` by a scalar returns.
    pub open spec fn spec_scaled(self, rhs: T) -> Vec3<T> where T: Mul<Output = T> {
        Vec3 { x: self.x.mul_spec(rhs), y: self.y.mul_spec(rhs), z: self.z.mul_spec(rhs) }
    }
}

impl<T: Add<Output = T>> Add for Vec3<T> {
    type Output = Vec3<T>;

    fn add(self, rhs: Vec3<T>) -> (r: Vec3<T>) {
        Vec3 { x: self.x + rhs.x, y: self.y + rhs.y, z: self.z + rhs.z }
    }
}

impl<T: Add<Output = T>> AddSpecImpl for Vec3<T> {
    open spec fn obeys_add_spec() -> bool {
        T::obeys_add_spec()
    }

    open spec fn add_req(self, rhs: Vec3<T>) -> bool {
        self.x.add_req(rhs.x) && self.y.add_req(rhs.y) && self.z.add_req(rhs.z)
    }

    open spec fn add_spec(self, rhs: Vec3<T>) -> Vec3<T> {
        self.spec_sum(rhs)
    }
}

impl<T: Sub<Output = T>> Sub for Vec3<T> {
    type Output = Vec3<T>;

    fn sub(self, rhs: Vec3<T>) -> (r: Vec3<T>) {
        Vec3 { x: self.x - rhs.x, y: self.y - rhs.y, z: self.z - rhs.z }
    }
}

impl<T: Sub<Output = T>> SubSpecImpl for Vec3<T> {
    open spec fn obeys_sub_spec() -> bool {
        T::obeys_sub_spec()
    }

    open spec fn sub_req(self, rhs: Vec3<T>) -> bool {
        self.x.sub_req(rhs.x) && self.y.sub_req(rhs.y) && self.z.sub_req(rhs.z)
    }

    open spec fn sub_spec(self, rhs: Vec3<T>) -> Vec3<T> {
        self.spec_difference(rhs)
    }
}

impl<T: Mul<Output = T> + Copy> Mul<T> for Vec3<T> {
    type Output = Vec3<T>;

    fn mul(self, rhs: T) -> (r: Vec3<T>) {
        Vec3 { x: self.x * rhs, y: self.y * rhs, z: self.z * rhs }
    }
}

impl<T: Mul<Output = T> + Copy> MulSpecImpl<T> for Vec3<T> {
    open spec fn obeys_mul_spec() -> bool {
        T::obeys_mul_spec()
    }

    open spec fn mul_req(self, rhs: T) -> bool {
        self.x.mul_req(rhs) && self.y.mul_req(rhs) && self.z.mul_req(rhs)
    }

    open spec fn mul_spec(self, rhs: T) -> Vec3<T> {
        self.spec_scaled(rhs)
    }
}

} // verus!
