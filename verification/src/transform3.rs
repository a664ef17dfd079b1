use crate::quaternion::Quaternion;
use crate::scalar::{total_add, total_mul, total_neg, total_sub};
use crate::vec3::Vec3;
use crate::zero::{total_zero, Zero};
use std::ops::{Add, Mul, Neg, Sub};
use vstd::prelude::*;

verus! {

/// A rigid frame: an origin, and an orientation relative to the space that
/// holds the frame.
#[derive(Clone, Copy)]
pub struct Transform3<T> {
    pub origin: Vec3<T>,
    pub orientation: Quaternion<T>,
}

impl<T: Copy> Transform3<T> {
    /// The frame of the given origin and orientation.
    pub fn new(origin: Vec3<T>, orientation: Quaternion<T>) -> (r: Transform3<T>)
        ensures
            r == (Transform3 { origin, orientation }),
    {
        Transform3 { origin, orientation }
    }

    /// A direction of the frame, rotated by the orientation.
    pub open spec fn spec_vector_from_space(self, v: Vec3<T>) -> Vec3<T> where
        T: Add<Output = T> + Sub<Output = T> + Mul<Output = T> + Neg<Output = T> + Zero,
     {
        self.orientation.spec_rotate(v)
    }

    /// A direction of the outer space, rotated by the conjugate of the
    /// orientation.
    pub open spec fn spec_vector_to_space(self, v: Vec3<T>) -> Vec3<T> where
        T: Add<Output = T> + Sub<Output = T> + Mul<Output = T> + Neg<Output = T> + Zero,
     {
        self.orientation.spec_conjugate().spec_rotate(v)
    }

    /// A point of the frame, rotated and then moved by the origin.
    pub open spec fn spec_point_from_space(self, pt: Vec3<T>) -> Vec3<T> where
        T: Add<Output = T> + Sub<Output = T> + Mul<Output = T> + Neg<Output = T> + Zero,
     {
        self.spec_vector_from_space(pt).spec_sum(self.origin)
    }

    /// A point of the outer space, taken relative to the origin and then
    /// rotated back.
    pub open spec fn spec_point_to_space(self, pt: Vec3<T>) -> Vec3<T> where
        T: Add<Output = T> + Sub<Output = T> + Mul<Output = T> + Neg<Output = T> + Zero,
     {
        self.spec_vector_to_space(pt.spec_difference(self.origin))
    }

    /// Takes a point of the frame to the outer space.
    pub fn point_from_space(&self, pt: Vec3<T>) -> (r: Vec3<T>) where
        T: Add<Output = T> + Sub<Output = T> + Mul<Output = T> + Neg<Output = T> + Zero,

        requires
            total_add::<T>(),
            total_sub::<T>(),
            total_mul::<T>(),
            total_neg::<T>(),
            total_zero::<T>(),
        ensures
            r == self.spec_point_from_space(pt),
    {
        self.vector_from_space(pt) + self.origin
    }

    /// Takes a point of the outer space into the frame.
    pub fn point_to_space(&self, pt: Vec3<T>) -> (r: Vec3<T>) where
        T: Add<Output = T> + Sub<Output = T> + Mul<Output = T> + Neg<Output = T> + Zero,

        requires
            total_add::<T>(),
            total_sub::<T>(),
            total_mul::<T>(),
            total_neg::<T>(),
            total_zero::<T>(),
        ensures
            r == self.spec_point_to_space(pt),
    {
        self.vector_to_space(pt - self.origin)
    }

    /// Takes a direction of the frame to the outer space.
    pub fn vector_from_space(&self, v: Vec3<T>) -> (r: Vec3<T>) where
        T: Add<Output = T> + Sub<Output = T> + Mul<Output = T> + Neg<Output = T> + Zero,

        requires
            total_add::<T>(),
            total_sub::<T>(),
            total_mul::<T>(),
            total_neg::<T>(),
            total_zero::<T>(),
        ensures
            r == self.spec_vector_from_space(v),
    {
        self.orientation.rotate(v)
    }

    /// Takes a direction of the outer space into the frame.
    pub fn vector_to_space(&self, v: Vec3<T>) -> (r: Vec3<T>) where
        T: Add<Output = T> + Sub<Output = T> + Mul<Output = T> + Neg<Output = T> + Zero,

        requires
            total_add::<T>(),
            total_sub::<T>(),
            total_mul::<T>(),
            total_neg::<T>(),
            total_zero::<T>(),
        ensures
            r == self.spec_vector_to_space(v),
    {
        self.orientation.conjugate().rotate(v)
    }
}

} // verus!
