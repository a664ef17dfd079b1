use crate::max::{spec_max, total_max, Max};
use crate::min::{spec_min, total_min, Min};
use crate::one::{total_one, One};
use crate::ray2::Ray2;
use crate::scalar::{
    half, spec_half, total_add, total_div, total_mul, total_neg, total_order, total_sub,
};
use std::ops::{Add, Div, Mul, Neg, Sub};
use vstd::prelude::*;
use vstd::std_specs::cmp::PartialOrdIs;
use vstd::std_specs::ops::{DivSpec, MulSpec, NegSpec, SubSpec};

verus! {

/// An axis-aligned box. The ray tests look at its footprint on the ground
/// plane only: `[min_x, max_x]` by `[min_z, max_z]`.
pub struct Aabb<T> {
    pub min_x: T,
    pub min_y: T,
    pub min_z: T,
    pub max_x: T,
    pub max_y: T,
    pub max_z: T,
}

/// The parameters `(t_min, t_max)` between which a ray lies within both the
/// slab `[lo_x, hi_x]` and the slab `[lo_z, hi_z]`: the later of the two
/// entries and the earlier of the two exits. The ray's second component is
/// its z. A direction component of zero is divided by as the scalar's `/`
/// defines it.
pub open spec fn spec_slab_interval<T>(lo_x: T, hi_x: T, lo_z: T, hi_z: T, ray: Ray2<T>) -> (T, T) where
    T: Sub<Output = T> + Div<Output = T> + Min + Max,
 {
    let t1 = lo_x.sub_spec(ray.origin.x).div_spec(ray.direction.x);
    let t2 = hi_x.sub_spec(ray.origin.x).div_spec(ray.direction.x);
    let t3 = lo_z.sub_spec(ray.origin.y).div_spec(ray.direction.y);
    let t4 = hi_z.sub_spec(ray.origin.y).div_spec(ray.direction.y);
    (
        spec_max(spec_min(t1, t2), spec_min(t3, t4)),
        spec_min(spec_max(t1, t2), spec_max(t3, t4)),
    )
}

/// The interval of `spec_slab_interval`, or `None` where the ray leaves one
/// slab before it enters the other: where `t_max < t_min`.
pub open spec fn spec_slab_hit<T>(lo_x: T, hi_x: T, lo_z: T, hi_z: T, ray: Ray2<T>) -> Option<
    (T, T),
> where T: Sub<Output = T> + Div<Output = T> + Min + Max + PartialOrd {
    let (t_min, t_max) = spec_slab_interval(lo_x, hi_x, lo_z, hi_z, ray);
    if t_max.is_lt(&t_min) {
        None
    } else {
        Some((t_min, t_max))
    }
}

/// What `slab_test` returns: `spec_slab_hit` for the square of the given side
/// about the origin.
pub open spec fn spec_slab_test<T>(ray: Ray2<T>, side: T) -> Option<(T, T)> where
    T: Add<Output = T> + Sub<Output = T> + Mul<Output = T> + Div<Output = T> + Neg<
        Output = T,
    > + Min + Max + PartialOrd + One,
 {
    let h = spec_half::<T>().mul_spec(side);
    spec_slab_hit(h.neg_spec(), h, h.neg_spec(), h, ray)
}

fn slab_hit<T>(lo_x: T, hi_x: T, lo_z: T, hi_z: T, ray: Ray2<T>) -> (r: Option<(T, T)>) where
    T: Sub<Output = T> + Div<Output = T> + Copy + Min + Max + PartialOrd,

    requires
        total_sub::<T>(),
        total_div::<T>(),
        total_order::<T>(),
        total_min::<T>(),
        total_max::<T>(),
    ensures
        r == spec_slab_hit(lo_x, hi_x, lo_z, hi_z, ray),
{
    let t1 = (lo_x - ray.origin.x) / ray.direction.x;
    let t2 = (hi_x - ray.origin.x) / ray.direction.x;
    let t3 = (lo_z - ray.origin.y) / ray.direction.y;
    let t4 = (hi_z - ray.origin.y) / ray.direction.y;
    let t_min = t1.min(t2).max(t3.min(t4));
    let t_max = t1.max(t2).min(t3.max(t4));
    if t_max < t_min {
        return None;
    }
    Some((t_min, t_max))
}

/// The slab test of a ray against the square `[-side/2, side/2]` by
/// `[-side/2, side/2]` about the origin of the ray's own frame.
///
/// It returns the interval `(t_min, t_max)` of ray parameters within the
/// square, and `None` exactly where that interval is empty. It does not ask
/// that the square lie ahead of the ray: `t_min`, and `t_max` too, may be
/// negative, and it is for the caller to say what that means.
pub fn slab_test<T>(ray: Ray2<T>, side: T) -> (r: Option<(T, T)>) where
    T: Add<Output = T> + Sub<Output = T> + Mul<Output = T> + Div<Output = T> + Neg<
        Output = T,
    > + Copy + Min + Max + PartialOrd + One,

    requires
        total_add::<T>(),
        total_sub::<T>(),
        total_mul::<T>(),
        total_div::<T>(),
        total_neg::<T>(),
        total_order::<T>(),
        total_min::<T>(),
        total_max::<T>(),
        total_one::<T>(),
    ensures
        r == spec_slab_test(ray, side),
{
    let h = half::<T>() * side;
    slab_hit(h.neg(), h, h.neg(), h, ray)
}

impl<T> Aabb<T> {
    /// The box of the given bounds.
    pub fn new(min_x: T, min_y: T, min_z: T, max_x: T, max_y: T, max_z: T) -> (r: Aabb<T>)
        ensures
            r == (Aabb { min_x, min_y, min_z, max_x, max_y, max_z }),
    {
        Aabb { min_x, min_y, min_z, max_x, max_y, max_z }
    }

    /// The slab test of a ray in the ground plane against the box's
    /// footprint, `[min_x, max_x]` by `[min_z, max_z]`.
    ///
    /// It returns the interval `(t_min, t_max)` of ray parameters over the
    /// footprint, and `None` exactly where that interval is empty, where
    /// `t_max < t_min`. It does not ask that the box lie ahead of the ray:
    /// for a ray that starts within the box `t_min` is negative, and it is for
    /// the caller to say what that means.
    pub fn ray_xz_insection_2pt5d(&self, ray_xz: Ray2<T>) -> (r: Option<(T, T)>) where
        T: Sub<Output = T> + Div<Output = T> + Copy + Min + Max + PartialOrd,

        requires
            total_sub::<T>(),
            total_div::<T>(),
            total_order::<T>(),
            total_min::<T>(),
            total_max::<T>(),
        ensures
            r == spec_slab_hit(self.min_x, self.max_x, self.min_z, self.max_z, ray_xz),
    {
        slab_hit(self.min_x, self.max_x, self.min_z, self.max_z, ray_xz)
    }
}

} // verus!
