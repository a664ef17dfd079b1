use crate::scalar::{total_add, total_mul};
use crate::vec2::Vec2;
use std::ops::{Add, Mul};
use vstd::prelude::*;

verus! {

/// A ray in the ground plane: the points `origin + direction * t`.
///
/// The direction need not have length one. Where it has, `t` is the distance
/// travelled from the origin.
#[derive(Clone, Copy)]
pub struct Ray2<T> {
    pub origin: Vec2<T>,
    pub direction: Vec2<T>,
}

impl<T> Ray2<T> {
    /// The ray from `origin` along `direction`.
    pub fn new(origin: Vec2<T>, direction: Vec2<T>) -> (r: Ray2<T>)
        ensures
            r == (Ray2 { origin, direction }),
    {
        Ray2 { origin, direction }
    }

    /// `origin + direction * t`, component by component.
    pub open spec fn spec_position_from_time(self, t: T) -> Vec2<T> where
        T: Add<Output = T> + Mul<Output = T> + Copy,
     {
        self.origin.spec_sum(self.direction.spec_scaled(t))
    }

    /// The point of the ray at parameter `t`.
    pub fn position_from_time(&self, t: T) -> (r: Vec2<T>) where
        T: Add<Output = T> + Mul<Output = T> + Copy,

        requires
            total_add::<T>(),
            total_mul::<T>(),
        ensures
            r == self.spec_position_from_time(t),
    {
        self.origin + self.direction * t
    }
}

} // verus!
