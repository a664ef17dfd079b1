use crate::one::{total_one, One};
use crate::ray2::Ray2;
use crate::scalar::{spec_half, total_add, total_div, total_mul, total_neg, total_sub};
use crate::sqrt::{total_sqrt, Sqrt};
use crate::transform3::Transform3;
use crate::vec2::Vec2;
use crate::vec3::Vec3;
use crate::zero::{spec_zero, total_zero, Zero};
use std::ops::{Add, Div, Mul, Neg, Sub};
use vstd::prelude::*;
use vstd::std_specs::ops::{AddSpec, DivSpec, MulSpec, NegSpec, SubSpec};

verus! {

/// A pinhole camera. It looks down the negative z axis of its own frame; the
/// screen lies `screen_dist` in front of it, with its row 0 at the top.
#[derive(Clone, Copy)]
pub struct Camera<T> {
    pub space: Transform3<T>,
    pub screen_width: T,
    pub screen_height: T,
    pub screen_dist: T,
}

impl<T: Copy> Camera<T> {
    /// The ray in the ground plane through screen column `x`: it starts
    /// below the camera, and its direction is that of the column's centre
    /// line, taken into the outer space, dropped onto the ground plane and
    /// normalized there.
    pub open spec fn spec_screen_x_to_ray2(&self, x: T) -> Ray2<T> where
        T: Add<Output = T> + Sub<Output = T> + Mul<Output = T> + Div<Output = T> + Neg<
            Output = T,
        > + Zero + One + Sqrt<Output = T>,
     {
        let rd = Vec3 {
            x: x.sub_spec(spec_half::<T>().mul_spec(self.screen_width)),
            y: spec_zero::<T>(),
            z: self.screen_dist.neg_spec(),
        };
        let rd2 = self.space.spec_vector_from_space(rd);
        Ray2 {
            origin: Vec2 { x: self.space.origin.x, y: self.space.origin.z },
            direction: (Vec2 { x: rd2.x, y: rd2.z }).spec_normalize(),
        }
    }

    /// The ray in the ground plane that screen column `x` looks along. There
    /// is one for every column.
    pub fn screen_x_to_ray2(&self, x: T) -> (r: Option<Ray2<T>>) where
        T: Add<Output = T> + Sub<Output = T> + Mul<Output = T> + Div<Output = T> + Neg<
            Output = T,
        > + Zero + One + Sqrt<Output = T>,

        requires
            total_add::<T>(),
            total_sub::<T>(),
            total_mul::<T>(),
            total_div::<T>(),
            total_neg::<T>(),
            total_zero::<T>(),
            total_one::<T>(),
            total_sqrt::<T>(),
        ensures
            r == Some(self.spec_screen_x_to_ray2(x)),
    {
        let half = T::one() / (T::one() + T::one());
        let rd = Vec3::new(x - half * self.screen_width, T::zero(), self.screen_dist.neg());
        let rd2 = self.space.vector_from_space(rd);
        Some(
            Ray2::new(
                Vec2::new(self.space.origin.x, self.space.origin.z),
                Vec2::new(rd2.x, rd2.z).normalize(),
            ),
        )
    }

    /// The screen row of a point of the outer space: half the screen's
    /// height, less the point's height in the camera's frame scaled by
    /// `screen_dist` over its depth.
    pub open spec fn spec_project_y(&self, pt: Vec3<T>) -> T where
        T: Add<Output = T> + Sub<Output = T> + Mul<Output = T> + Div<Output = T> + Neg<
            Output = T,
        > + Zero + One,
     {
        let pt2 = self.space.spec_point_to_space(pt);
        let y = pt2.y.mul_spec(self.screen_dist).div_spec(pt2.z.neg_spec());
        spec_half::<T>().mul_spec(self.screen_height).sub_spec(y)
    }

    /// The screen row at which a point of the outer space is seen.
    pub fn project_y(&self, pt: Vec3<T>) -> (r: T) where
        T: Add<Output = T> + Sub<Output = T> + Mul<Output = T> + Div<Output = T> + Neg<
            Output = T,
        > + Zero + One,

        requires
            total_add::<T>(),
            total_sub::<T>(),
            total_mul::<T>(),
            total_div::<T>(),
            total_neg::<T>(),
            total_zero::<T>(),
            total_one::<T>(),
        ensures
            r == self.spec_project_y(pt),
    {
        let pt2 = self.space.point_to_space(pt);
        let y = pt2.y * self.screen_dist / pt2.z.neg();
        let half = T::one() / (T::one() + T::one());
        half * self.screen_height - y
    }

    /// The screen position of a point of the outer space: the column grows
    /// to the right of the screen's centre, the row as `spec_project_y`.
    pub open spec fn spec_project(&self, pt: Vec3<T>) -> Vec2<T> where
        T: Add<Output = T> + Sub<Output = T> + Mul<Output = T> + Div<Output = T> + Neg<
            Output = T,
        > + Zero + One,
     {
        let pt2 = self.space.spec_point_to_space(pt);
        let x = pt2.x.mul_spec(self.screen_dist).div_spec(pt2.z.neg_spec());
        Vec2 {
            x: spec_half::<T>().mul_spec(self.screen_width).add_spec(x),
            y: self.spec_project_y(pt),
        }
    }

    /// The screen position at which a point of the outer space is seen.
    pub fn project(&self, pt: Vec3<T>) -> (r: Vec2<T>) where
        T: Add<Output = T> + Sub<Output = T> + Mul<Output = T> + Div<Output = T> + Neg<
            Output = T,
        > + Zero + One,

        requires
            total_add::<T>(),
            total_sub::<T>(),
            total_mul::<T>(),
            total_div::<T>(),
            total_neg::<T>(),
            total_zero::<T>(),
            total_one::<T>(),
        ensures
            r == self.spec_project(pt),
    {
        let pt2 = self.space.point_to_space(pt);
        let pt3 = Vec2::new(
            pt2.x * self.screen_dist / pt2.z.neg(),
            pt2.y * self.screen_dist / pt2.z.neg(),
        );
        let half = T::one() / (T::one() + T::one());
        Vec2::new(half * self.screen_width + pt3.x, half * self.screen_height - pt3.y)
    }
}

} // verus!
