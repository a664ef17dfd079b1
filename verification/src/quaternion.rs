use crate::acos::{spec_acos, total_acos, Acos};
use crate::one::{spec_one, total_one, One};
use crate::scalar::{total_add, total_div, total_mul, total_neg, total_order, total_sub};
use crate::sin::{spec_sin, total_sin, Sin};
use crate::sqrt::{spec_sqrt, total_sqrt, Sqrt};
use crate::vec3::Vec3;
use crate::zero::{spec_zero, total_zero, Zero};
use std::ops::{Add, Div, Mul, Neg, Sub};
use vstd::prelude::*;
use vstd::std_specs::cmp::PartialOrdIs;
use vstd::std_specs::ops::{AddSpec, DivSpec, MulSpec, MulSpecImpl, NegSpec, SubSpec};

verus! {

/// A quaternion `w + x i + y j + z k`.
#[derive(Clone, Copy)]
pub struct Quaternion<T> {
    pub w: T,
    pub x: T,
    pub y: T,
    pub z: T,
}

/// `n` ones added to zero, one after the other.
pub open spec fn spec_count<T: Zero + One + Add<Output = T>>(n: nat) -> T
    decreases n,
{
    if n == 0 {
        spec_zero::<T>()
    } else {
        spec_count::<T>((n - 1) as nat).add_spec(spec_one::<T>())
    }
}

impl<T: Copy> Quaternion<T> {
    /// The quaternion that turns nothing.
    pub fn identity() -> (r: Quaternion<T>) where T: One + Zero
        requires
            total_zero::<T>(),
            total_one::<T>(),
        ensures
            r == (Quaternion {
                w: spec_one::<T>(),
                x: spec_zero::<T>(),
                y: spec_zero::<T>(),
                z: spec_zero::<T>(),
            }),
    {
        Quaternion { w: T::one(), x: T::zero(), y: T::zero(), z: T::zero() }
    }

    /// The rotation that takes the standard axes to `u`, `v` and `u × v`.
    pub fn from_uv(u: Vec3<T>, v: Vec3<T>) -> (r: Quaternion<T>) where
        T: Add<Output = T> + Sub<Output = T> + Mul<Output = T> + Div<Output = T> + Sqrt<
            Output = T,
        > + PartialOrd + Zero + One,

        requires
            total_add::<T>(),
            total_sub::<T>(),
            total_mul::<T>(),
            total_div::<T>(),
            total_order::<T>(),
            total_sqrt::<T>(),
            total_zero::<T>(),
            total_one::<T>(),
        ensures
            r == Self::spec_from_uvw(u, v, u.spec_cross(v)),
    {
        let w = u.cross(v);
        Self::from_uvw(u, v, w)
    }

    /// The rotation that takes the standard axes to `v × w`, `v` and `w`.
    pub fn from_vw(v: Vec3<T>, w: Vec3<T>) -> (r: Quaternion<T>) where
        T: Add<Output = T> + Sub<Output = T> + Mul<Output = T> + Div<Output = T> + Sqrt<
            Output = T,
        > + PartialOrd + Zero + One,

        requires
            total_add::<T>(),
            total_sub::<T>(),
            total_mul::<T>(),
            total_div::<T>(),
            total_order::<T>(),
            total_sqrt::<T>(),
            total_zero::<T>(),
            total_one::<T>(),
        ensures
            r == Self::spec_from_uvw(v.spec_cross(w), v, w),
    {
        let u = v.cross(w);
        Self::from_uvw(u, v, w)
    }

    /// The rotation that takes the standard axes to `u`, `w × u` and `w`.
    pub fn from_wu(w: Vec3<T>, u: Vec3<T>) -> (r: Quaternion<T>) where
        T: Add<Output = T> + Sub<Output = T> + Mul<Output = T> + Div<Output = T> + Sqrt<
            Output = T,
        > + PartialOrd + Zero + One,

        requires
            total_add::<T>(),
            total_sub::<T>(),
            total_mul::<T>(),
            total_div::<T>(),
            total_order::<T>(),
            total_sqrt::<T>(),
            total_zero::<T>(),
            total_one::<T>(),
        ensures
            r == Self::spec_from_uvw(u, w.spec_cross(u), w),
    {
        let v = w.cross(u);
        Self::from_uvw(u, v, w)
    }

    /// The quaternion of the rotation matrix whose columns are `u`, `v` and
    /// `w`. Of the four algebraically equal formulas it takes the one whose
    /// divisor is largest: by the trace where that is positive, else by the
    /// largest diagonal entry, the later entry winning a tie.
    pub open spec fn spec_from_uvw(u: Vec3<T>, v: Vec3<T>, w: Vec3<T>) -> Quaternion<T> where
        T: Add<Output = T> + Sub<Output = T> + Mul<Output = T> + Div<Output = T> + Sqrt<
            Output = T,
        > + PartialOrd + Zero + One,
     {
        let one = spec_one::<T>();
        let two = one.add_spec(one);
        let quarter = one.div_spec(two.add_spec(two));
        let tr = u.x.add_spec(v.y).add_spec(w.z);
        if tr.is_gt(&spec_zero::<T>()) {
            let s = spec_sqrt(tr.add_spec(one)).mul_spec(two);
            Quaternion {
                w: quarter.mul_spec(s),
                x: v.z.sub_spec(w.y).div_spec(s),
                y: w.x.sub_spec(u.z).div_spec(s),
                z: u.y.sub_spec(v.x).div_spec(s),
            }
        } else if u.x.is_gt(&v.y) && u.x.is_gt(&w.z) {
            let s = spec_sqrt(one.add_spec(u.x).sub_spec(v.y).sub_spec(w.z)).mul_spec(two);
            Quaternion {
                w: v.z.sub_spec(w.y).div_spec(s),
                x: quarter.mul_spec(s),
                y: v.x.add_spec(u.y).div_spec(s),
                z: w.x.add_spec(u.z).div_spec(s),
            }
        } else if v.y.is_gt(&w.z) {
            let s = spec_sqrt(one.add_spec(v.y).sub_spec(u.x).sub_spec(w.z)).mul_spec(two);
            Quaternion {
                w: w.x.sub_spec(u.z).div_spec(s),
                x: v.x.add_spec(u.y).div_spec(s),
                y: quarter.mul_spec(s),
                z: w.y.add_spec(v.z).div_spec(s),
            }
        } else {
            let s = spec_sqrt(one.add_spec(w.z).sub_spec(u.x).sub_spec(v.y)).mul_spec(two);
            Quaternion {
                w: u.y.sub_spec(v.x).div_spec(s),
                x: w.x.add_spec(u.z).div_spec(s),
                y: w.y.add_spec(v.z).div_spec(s),
                z: quarter.mul_spec(s),
            }
        }
    }

    /// The quaternion of the rotation matrix of columns `u`, `v` and `w`.
    fn from_uvw(u: Vec3<T>, v: Vec3<T>, w: Vec3<T>) -> (r: Quaternion<T>) where
        T: Add<Output = T> + Sub<Output = T> + Mul<Output = T> + Div<Output = T> + Sqrt<
            Output = T,
        > + PartialOrd + Zero + One,

        requires
            total_add::<T>(),
            total_sub::<T>(),
            total_mul::<T>(),
            total_div::<T>(),
            total_order::<T>(),
            total_sqrt::<T>(),
            total_zero::<T>(),
            total_one::<T>(),
        ensures
            r == Self::spec_from_uvw(u, v, w),
    {
        let m00 = u.x;
        let m10 = u.y;
        let m20 = u.z;
        let m01 = v.x;
        let m11 = v.y;
        let m21 = v.z;
        let m02 = w.x;
        let m12 = w.y;
        let m22 = w.z;
        let tr = m00 + m11 + m22;
        let qw: T;
        let qx: T;
        let qy: T;
        let qz: T;
        let two = T::one() + T::one();
        let four = two + two;
        let quarter = T::one() / four;
        if tr > T::zero() {
            let s = (tr + T::one()).sqrt() * two;
            qw = quarter * s;
            qx = (m21 - m12) / s;
            qy = (m02 - m20) / s;
            qz = (m10 - m01) / s;
        } else if (m00 > m11) && (m00 > m22) {
            let s = (T::one() + m00 - m11 - m22).sqrt() * two;
            qw = (m21 - m12) / s;
            qx = quarter * s;
            qy = (m01 + m10) / s;
            qz = (m02 + m20) / s;
        } else if m11 > m22 {
            let s = (T::one() + m11 - m00 - m22).sqrt() * two;
            qw = (m02 - m20) / s;
            qx = (m01 + m10) / s;
            qy = quarter * s;
            qz = (m12 + m21) / s;
        } else {
            let s = (T::one() + m22 - m00 - m11).sqrt() * two;
            qw = (m10 - m01) / s;
            qx = (m02 + m20) / s;
            qy = (m12 + m21) / s;
            qz = quarter * s;
        }
        Quaternion { w: qw, x: qx, y: qy, z: qz }
    }

    /// The four-component dot product, summed from the left.
    pub open spec fn spec_dot(self, rhs: Quaternion<T>) -> T where
        T: Add<Output = T> + Mul<Output = T>,
     {
        self.w.mul_spec(rhs.w).add_spec(self.x.mul_spec(rhs.x)).add_spec(
            self.y.mul_spec(rhs.y),
        ).add_spec(self.z.mul_spec(rhs.z))
    }

    /// The dot product with `rhs`.
    pub fn dot(self, rhs: Quaternion<T>) -> (r: T) where T: Add<Output = T> + Mul<Output = T>
        requires
            total_add::<T>(),
            total_mul::<T>(),
        ensures
            r == self.spec_dot(rhs),
    {
        let lhs = self;
        lhs.w * rhs.w + lhs.x * rhs.x + lhs.y * rhs.y + lhs.z * rhs.z
    }

    /// The same scalar part, the vector part negated.
    pub open spec fn spec_conjugate(self) -> Quaternion<T> where T: Neg<Output = T> {
        Quaternion {
            w: self.w,
            x: self.x.neg_spec(),
            y: self.y.neg_spec(),
            z: self.z.neg_spec(),
        }
    }

    /// The conjugate: of a quaternion of length one, the turn back.
    pub fn conjugate(self) -> (r: Quaternion<T>) where T: Neg<Output = T>
        requires
            total_neg::<T>(),
        ensures
            r == self.spec_conjugate(),
    {
        Quaternion { w: self.w, x: self.x.neg(), y: self.y.neg(), z: self.z.neg() }
    }

    /// The Hamilton product `self * rhs`, each component summed from the
    /// left.
    pub open spec fn spec_product(self, rhs: Quaternion<T>) -> Quaternion<T> where
        T: Add<Output = T> + Sub<Output = T> + Mul<Output = T>,
     {
        let lhs = self;
        Quaternion {
            w: lhs.w.mul_spec(rhs.w).sub_spec(lhs.x.mul_spec(rhs.x)).sub_spec(
                lhs.y.mul_spec(rhs.y),
            ).sub_spec(lhs.z.mul_spec(rhs.z)),
            x: lhs.w.mul_spec(rhs.x).add_spec(lhs.x.mul_spec(rhs.w)).add_spec(
                lhs.y.mul_spec(rhs.z),
            ).sub_spec(lhs.z.mul_spec(rhs.y)),
            y: lhs.w.mul_spec(rhs.y).sub_spec(lhs.x.mul_spec(rhs.z)).add_spec(
                lhs.y.mul_spec(rhs.w),
            ).add_spec(lhs.z.mul_spec(rhs.x)),
            z: lhs.w.mul_spec(rhs.z).add_spec(lhs.x.mul_spec(rhs.y)).sub_spec(
                lhs.y.mul_spec(rhs.x),
            ).add_spec(lhs.z.mul_spec(rhs.w)),
        }
    }

    /// The vector part of `self * (0, pt) * conjugate(self)`.
    pub open spec fn spec_rotate(self, pt: Vec3<T>) -> Vec3<T> where
        T: Add<Output = T> + Sub<Output = T> + Mul<Output = T> + Neg<Output = T> + Zero,
     {
        let p = Quaternion { w: spec_zero::<T>(), x: pt.x, y: pt.y, z: pt.z };
        let turned = self.spec_product(p).spec_product(self.spec_conjugate());
        Vec3 { x: turned.x, y: turned.y, z: turned.z }
    }

    /// Rotates `pt` by this quaternion, which is meant to have length one.
    pub fn rotate(self, pt: Vec3<T>) -> (r: Vec3<T>) where
        T: Add<Output = T> + Sub<Output = T> + Mul<Output = T> + Neg<Output = T> + Zero,

        requires
            total_add::<T>(),
            total_sub::<T>(),
            total_mul::<T>(),
            total_neg::<T>(),
            total_zero::<T>(),
        ensures
            r == self.spec_rotate(pt),
    {
        let p = Quaternion { w: T::zero(), x: pt.x, y: pt.y, z: pt.z };
        let turned = self * p * self.conjugate();
        Vec3::new(turned.x, turned.y, turned.z)
    }

    /// The two weights of a spherical interpolation from `self` to `target`
    /// at `t`: linear where the two are within a hundredth of parallel, by
    /// sines of the angle between them otherwise. With `allow_flip`, the
    /// first weight is negated where the dot product is negative, so that
    /// the shorter arc is taken.
    pub open spec fn spec_slerp_weights(
        self,
        target: Quaternion<T>,
        t: T,
        allow_flip: bool,
    ) -> (T, T) where
        T: Add<Output = T> + Sub<Output = T> + Mul<Output = T> + Div<Output = T> + Neg<
            Output = T,
        > + Zero + One + PartialOrd + Acos + Sin,
     {
        let one = spec_one::<T>();
        let zero = spec_zero::<T>();
        let cos_angle = self.spec_dot(target);
        let ten = spec_count::<T>(10);
        let one_hundredth = one.div_spec(ten.mul_spec(ten));
        let abs_cos_angle = if cos_angle.is_lt(&zero) {
            cos_angle.neg_spec()
        } else {
            cos_angle
        };
        let (c1, c2) = if one.sub_spec(abs_cos_angle).is_lt(&one_hundredth) {
            (one.sub_spec(t), t)
        } else {
            let angle = spec_acos(abs_cos_angle);
            let sin_angle = spec_sin(angle);
            (
                spec_sin(angle.mul_spec(one.sub_spec(t))).div_spec(sin_angle),
                spec_sin(angle.mul_spec(t)).div_spec(sin_angle),
            )
        };
        if allow_flip && cos_angle.is_lt(&zero) {
            (c1.neg_spec(), c2)
        } else {
            (c1, c2)
        }
    }

    /// `self` and `target` weighted by `spec_slerp_weights` and added,
    /// component by component.
    pub open spec fn spec_slerp(self, target: Quaternion<T>, t: T, allow_flip: bool) -> Quaternion<
        T,
    > where
        T: Add<Output = T> + Sub<Output = T> + Mul<Output = T> + Div<Output = T> + Neg<
            Output = T,
        > + Zero + One + PartialOrd + Acos + Sin,
     {
        let (c1, c2) = self.spec_slerp_weights(target, t, allow_flip);
        Quaternion {
            w: c1.mul_spec(self.w).add_spec(c2.mul_spec(target.w)),
            x: c1.mul_spec(self.x).add_spec(c2.mul_spec(target.x)),
            y: c1.mul_spec(self.y).add_spec(c2.mul_spec(target.y)),
            z: c1.mul_spec(self.z).add_spec(c2.mul_spec(target.z)),
        }
    }

    /// The quaternion the part `t` of the way from `self` to `target`, along
    /// the arc between them.
    pub fn slerp(self, target: Quaternion<T>, t: T, allow_flip: bool) -> (r: Quaternion<T>) where
        T: Add<Output = T> + Sub<Output = T> + Mul<Output = T> + Div<Output = T> + Neg<
            Output = T,
        > + Zero + One + PartialOrd + Acos + Sin,

        requires
            total_add::<T>(),
            total_sub::<T>(),
            total_mul::<T>(),
            total_div::<T>(),
            total_neg::<T>(),
            total_order::<T>(),
            total_zero::<T>(),
            total_one::<T>(),
            total_acos::<T>(),
            total_sin::<T>(),
        ensures
            r == self.spec_slerp(target, t, allow_flip),
    {
        let a = self;
        let b = target;
        let cos_angle: T = a.dot(b);
        let mut c1: T;
        let c2: T;
        let mut ten = T::zero();
        for i in 0..10u8
            invariant
                total_add::<T>(),
                total_one::<T>(),
                ten == spec_count::<T>(i as nat),
        {
            ten = ten + T::one();
        }
        let one_hundredth = T::one() / (ten * ten);
        let abs_cos_angle: T = if cos_angle < T::zero() {
            cos_angle.neg()
        } else {
            cos_angle
        };
        if (T::one() - abs_cos_angle) < one_hundredth {
            c1 = T::one() - t;
            c2 = t;
        } else {
            let angle = abs_cos_angle.acos();
            let sin_angle = angle.sin();
            c1 = (angle * (T::one() - t)).sin() / sin_angle;
            c2 = (angle * t).sin() / sin_angle;
        }
        if allow_flip && (cos_angle < T::zero()) {
            c1 = c1.neg();
        }
        Quaternion {
            w: c1 * a.w + c2 * b.w,
            x: c1 * a.x + c2 * b.x,
            y: c1 * a.y + c2 * b.y,
            z: c1 * a.z + c2 * b.z,
        }
    }
}

impl<T: Copy + Add<Output = T> + Sub<Output = T> + Mul<Output = T>> Mul for Quaternion<T> {
    type Output = Quaternion<T>;

    fn mul(self, rhs: Self) -> (r: Quaternion<T>) {
        let lhs = self;
        Quaternion {
            w: lhs.w * rhs.w - lhs.x * rhs.x - lhs.y * rhs.y - lhs.z * rhs.z,
            x: lhs.w * rhs.x + lhs.x * rhs.w + lhs.y * rhs.z - lhs.z * rhs.y,
            y: lhs.w * rhs.y - lhs.x * rhs.z + lhs.y * rhs.w + lhs.z * rhs.x,
            z: lhs.w * rhs.z + lhs.x * rhs.y - lhs.y * rhs.x + lhs.z * rhs.w,
        }
    }
}

impl<T: Copy + Add<Output = T> + Sub<Output = T> + Mul<Output = T>> MulSpecImpl for Quaternion<T> {
    open spec fn obeys_mul_spec() -> bool {
        T::obeys_add_spec() && T::obeys_sub_spec() && T::obeys_mul_spec()
    }

    open spec fn mul_req(self, rhs: Quaternion<T>) -> bool {
        total_add::<T>() && total_sub::<T>() && total_mul::<T>()
    }

    open spec fn mul_spec(self, rhs: Quaternion<T>) -> Quaternion<T> {
        self.spec_product(rhs)
    }
}

} // verus!
