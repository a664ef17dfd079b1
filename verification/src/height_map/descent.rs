//! The descent through the pyramid: from the root down, nearest child
//! first, leaving out what the visitor says is hidden.

use crate::aabb::{slab_test, spec_slab_test};
use crate::height_map::{spec_color, HeightMap, MAX_LEVELS};
use crate::max::Max;
use crate::min::Min;
use crate::one::{spec_one, One};
use crate::quad_tree::level_side;
use crate::ray2::Ray2;
use crate::scalar::{half, less, spec_half, total_field, total_from_i32, total_order};
use crate::vec2::Vec2;
use crate::visitor::{EventLog, IntersectionEvent, TimeHeight, Visitor};
use crate::zero::{spec_zero, Zero};
use std::ops::{Add, Div, Mul, Neg, Sub};
use vstd::prelude::*;
use vstd::std_specs::cmp::PartialOrdIs;
use vstd::std_specs::convert::FromSpec;
use vstd::std_specs::ops::{MulSpec, NegSpec, SubSpec};

verus! {

/// The cell of the level below that is child `k` of cell `(x, y)`. The
/// children are counted round the node: 0 and 1 in the row `2 * y`, 2 and 3
/// in the row `2 * y + 1`; 0 and 3 in the column `2 * x`.
pub open spec fn child_cell(x: nat, y: nat, k: usize) -> (nat, nat) {
    if k == 0 {
        (2 * x, 2 * y)
    } else if k == 1 {
        (2 * x + 1, 2 * y)
    } else if k == 2 {
        (2 * x + 1, 2 * y + 1)
    } else {
        (2 * x, 2 * y + 1)
    }
}

/// What is added to a ray's origin to take the ray into the frame of child
/// `k`, where `q` is a quarter of the node's side: the child in the column
/// `2 * x` lies `q` below the node's centre in x, so the origin moves up by
/// `q`; and so for z.
pub open spec fn child_shift<T: Neg<Output = T>>(q: T, k: usize) -> Vec2<T> {
    Vec2 {
        x: if k == 0 || k == 3 {
            q
        } else {
            q.neg_spec()
        },
        y: if k == 0 || k == 1 {
            q
        } else {
            q.neg_spec()
        },
    }
}

/// The key by which the children are put in order: less for a child that
/// the ray comes to sooner. It is the negated dot product of the child's
/// shift with the ray's direction.
pub open spec fn child_key<T>(shift: Vec2<T>, direction: Vec2<T>) -> T where
    T: Sub<Output = T> + Mul<Output = T> + Neg<Output = T>,
 {
    shift.x.neg_spec().mul_spec(direction.x).sub_spec(shift.y.mul_spec(direction.y))
}

/// The two, the second first where its key is less than the first's.
pub open spec fn spec_in_order<T: PartialOrd>(a: (T, usize), b: (T, usize)) -> (
    (T, usize),
    (T, usize),
) {
    if less(b.0, a.0) {
        (b, a)
    } else {
        (a, b)
    }
}

/// The four by rising key, by insertion from the left: each in turn is
/// compared with its neighbour toward the front, from its own place down to
/// the first, and changes places with it where its own key is the lesser.
pub open spec fn spec_sort4<T: PartialOrd>(
    e0: (T, usize),
    e1: (T, usize),
    e2: (T, usize),
    e3: (T, usize),
) -> ((T, usize), (T, usize), (T, usize), (T, usize)) {
    let (a0, a1) = spec_in_order(e0, e1);
    let (b1, b2) = spec_in_order(a1, e2);
    let (b0, b1) = spec_in_order(a0, b1);
    let (c2, c3) = spec_in_order(b2, e3);
    let (c1, c2) = spec_in_order(b1, c2);
    let (c0, c1) = spec_in_order(b0, c1);
    (c0, c1, c2, c3)
}

/// The order in which the four children of a node are visited, for a ray of
/// the given direction and a quarter `q` of the node's side.
pub open spec fn spec_child_order<T>(q: T, direction: Vec2<T>) -> (usize, usize, usize, usize) where
    T: Sub<Output = T> + Mul<Output = T> + Neg<Output = T> + PartialOrd,
 {
    let s = spec_sort4(
        (child_key(child_shift(q, 0), direction), 0usize),
        (child_key(child_shift(q, 1), direction), 1usize),
        (child_key(child_shift(q, 2), direction), 2usize),
        (child_key(child_shift(q, 3), direction), 3usize),
    );
    (s.0.1, s.1.1, s.2.1, s.3.1)
}

/// The comparison `<` puts the four keys in a strict weak order: no key is
/// less than itself, less-than passes along a chain, and so does being
/// neither less nor greater.
pub open spec fn weakly_ordered<T: PartialOrd>(k0: T, k1: T, k2: T, k3: T) -> bool {
    &&& forall|a: T| among(a, k0, k1, k2, k3) ==> !#[trigger] less(a, a)
    &&& forall|a: T, b: T, c: T|
        #![trigger less(a, b), less(b, c)]
        among(a, k0, k1, k2, k3) && among(b, k0, k1, k2, k3) && among(c, k0, k1, k2, k3) && less(
            a,
            b,
        ) && less(b, c) ==> less(a, c)
    &&& forall|a: T, b: T, c: T|
        #![trigger less(a, b), less(b, c)]
        among(a, k0, k1, k2, k3) && among(b, k0, k1, k2, k3) && among(c, k0, k1, k2, k3) && !less(
            a,
            b,
        ) && !less(b, a) && !less(b, c) && !less(c, b) ==> !less(a, c) && !less(c, a)
}

/// `a` is one of the four keys.
pub open spec fn among<T>(a: T, k0: T, k1: T, k2: T, k3: T) -> bool {
    a == k0 || a == k1 || a == k2 || a == k3
}

/// The place of child `k` in a visiting order; 4 for a child that the order
/// leaves out.
pub open spec fn place_of(order: (usize, usize, usize, usize), k: usize) -> int {
    if order.0 == k {
        0
    } else if order.1 == k {
        1
    } else if order.2 == k {
        2
    } else if order.3 == k {
        3
    } else {
        4
    }
}

/// Where `<` puts the four keys in a strict weak order, sorting them visits
/// every child once, never a child before one of lesser key, and of two
/// children of equal key the one of lesser number first.
pub proof fn law_sort4_is_stable_sort<T: PartialOrd>(k0: T, k1: T, k2: T, k3: T)
    requires
        weakly_ordered(k0, k1, k2, k3),
    ensures
        ({
            let keys = seq![k0, k1, k2, k3];
            let s = spec_sort4((k0, 0usize), (k1, 1usize), (k2, 2usize), (k3, 3usize));
            let order = (s.0.1, s.1.1, s.2.1, s.3.1);
            &&& forall|k: usize| k < 4 ==> 0 <= #[trigger] place_of(order, k) < 4
            &&& forall|a: usize, b: usize|
                #![trigger place_of(order, a), place_of(order, b)]
                a < 4 && b < 4 && less(keys[a as int], keys[b as int]) ==> place_of(order, a)
                    < place_of(order, b)
            &&& forall|a: usize, b: usize|
                #![trigger place_of(order, a), place_of(order, b)]
                a < b < 4 && !less(keys[b as int], keys[a as int]) ==> place_of(order, a)
                    < place_of(order, b)
        }),
{
    let keys = seq![k0, k1, k2, k3];
    assert(keys[0] == k0 && keys[1] == k1 && keys[2] == k2 && keys[3] == k3);
    lemma_sort4_pairs(k0, k1, k2, k3);
}

/// Every pair of the four keys is compared, so that what is known of all
/// comparisons is known of these.
proof fn lemma_mention_all<T: PartialOrd>(k0: T, k1: T, k2: T, k3: T)
    ensures
        less(k0, k0) || !less(k0, k0),
        less(k0, k1) || !less(k0, k1),
        less(k0, k2) || !less(k0, k2),
        less(k0, k3) || !less(k0, k3),
        less(k1, k0) || !less(k1, k0),
        less(k1, k1) || !less(k1, k1),
        less(k1, k2) || !less(k1, k2),
        less(k1, k3) || !less(k1, k3),
        less(k2, k0) || !less(k2, k0),
        less(k2, k1) || !less(k2, k1),
        less(k2, k2) || !less(k2, k2),
        less(k2, k3) || !less(k2, k3),
        less(k3, k0) || !less(k3, k0),
        less(k3, k1) || !less(k3, k1),
        less(k3, k2) || !less(k3, k2),
        less(k3, k3) || !less(k3, k3),
{
}

/// The claims of `law_sort4_is_stable_sort`, pair by pair.
proof fn lemma_sort4_pairs<T: PartialOrd>(k0: T, k1: T, k2: T, k3: T)
    requires
        weakly_ordered(k0, k1, k2, k3),
    ensures
        ({
            let s = spec_sort4((k0, 0usize), (k1, 1usize), (k2, 2usize), (k3, 3usize));
            let order = (s.0.1, s.1.1, s.2.1, s.3.1);
            let at0 = place_of(order, 0);
            let at1 = place_of(order, 1);
            let at2 = place_of(order, 2);
            let at3 = place_of(order, 3);
            &&& 0 <= at0 < 4 && 0 <= at1 < 4 && 0 <= at2 < 4 && 0 <= at3 < 4
            &&& less(k0, k1) ==> at0 < at1
            &&& less(k0, k2) ==> at0 < at2
            &&& less(k0, k3) ==> at0 < at3
            &&& less(k1, k0) ==> at1 < at0
            &&& less(k1, k2) ==> at1 < at2
            &&& less(k1, k3) ==> at1 < at3
            &&& less(k2, k0) ==> at2 < at0
            &&& less(k2, k1) ==> at2 < at1
            &&& less(k2, k3) ==> at2 < at3
            &&& less(k3, k0) ==> at3 < at0
            &&& less(k3, k1) ==> at3 < at1
            &&& less(k3, k2) ==> at3 < at2
            &&& !less(k1, k0) ==> at0 < at1
            &&& !less(k2, k0) ==> at0 < at2
            &&& !less(k3, k0) ==> at0 < at3
            &&& !less(k2, k1) ==> at1 < at2
            &&& !less(k3, k1) ==> at1 < at3
            &&& !less(k3, k2) ==> at2 < at3
        }),
{
    lemma_mention_all(k0, k1, k2, k3);
    assert(among(k0, k0, k1, k2, k3) && among(k1, k0, k1, k2, k3) && among(k2, k0, k1, k2, k3)
        && among(k3, k0, k1, k2, k3));
}

/// Where both children in the column `2 * x` have a lesser key than both
/// children in the column `2 * x + 1`, as they have for a ray that runs
/// toward rising x, both are visited before either of the other two.
pub proof fn law_near_column_first<T>(q: T, direction: Vec2<T>) where
    T: Sub<Output = T> + Mul<Output = T> + Neg<Output = T> + PartialOrd,

    requires
        weakly_ordered(
            child_key(child_shift(q, 0), direction),
            child_key(child_shift(q, 1), direction),
            child_key(child_shift(q, 2), direction),
            child_key(child_shift(q, 3), direction),
        ),
        less(child_key(child_shift(q, 0), direction), child_key(child_shift(q, 1), direction)),
        less(child_key(child_shift(q, 0), direction), child_key(child_shift(q, 2), direction)),
        less(child_key(child_shift(q, 3), direction), child_key(child_shift(q, 1), direction)),
        less(child_key(child_shift(q, 3), direction), child_key(child_shift(q, 2), direction)),
    ensures
        ({
            let order = spec_child_order(q, direction);
            &&& place_of(order, 0) < 2
            &&& place_of(order, 3) < 2
            &&& 2 <= place_of(order, 1) < 4
            &&& 2 <= place_of(order, 2) < 4
        }),
{
    lemma_sort4_pairs(
        child_key(child_shift(q, 0), direction),
        child_key(child_shift(q, 1), direction),
        child_key(child_shift(q, 2), direction),
        child_key(child_shift(q, 3), direction),
    );
}

/// The scalar's arithmetic is plain at `q`: times one, `-q` and `-(-q)`
/// stay what they are; less zero times `q` or zero times `-q`, they stay
/// what they are; and `-q` is less than `-(-q)`, neither is less than
/// itself, and `-(-q)` is not less than `-q`. So it is for a scalar of real
/// numbers and a `q` above zero.
pub open spec fn plain_arithmetic_at<T>(q: T) -> bool where
    T: Sub<Output = T> + Mul<Output = T> + Neg<Output = T> + PartialOrd + Zero + One,
 {
    let lo = q.neg_spec();
    let hi = lo.neg_spec();
    let zq = q.mul_spec(spec_zero::<T>());
    let zn = lo.mul_spec(spec_zero::<T>());
    &&& lo.mul_spec(spec_one::<T>()) == lo
    &&& hi.mul_spec(spec_one::<T>()) == hi
    &&& lo.sub_spec(zq) == lo
    &&& lo.sub_spec(zn) == lo
    &&& hi.sub_spec(zq) == hi
    &&& hi.sub_spec(zn) == hi
    &&& less(lo, hi)
    &&& !less(hi, lo)
    &&& !less(lo, lo)
    &&& !less(hi, hi)
}

/// Along a ray of direction `(1, 0)` the two children in the column `2 * x`
/// are visited before the two in the column `2 * x + 1`, in each column the
/// child of lesser number first: the order is 0, 3, 1, 2.
pub proof fn law_rising_x_visits_lower_column_first<T>(q: T) where
    T: Sub<Output = T> + Mul<Output = T> + Neg<Output = T> + PartialOrd + Zero + One,

    requires
        plain_arithmetic_at(q),
    ensures
        spec_child_order(q, Vec2 { x: spec_one::<T>(), y: spec_zero::<T>() }) == (
            0usize,
            3usize,
            1usize,
            2usize,
        ),
{
}

fn in_order<T: PartialOrd + Copy>(a: (T, usize), b: (T, usize)) -> (r: ((T, usize), (T, usize)))
    requires
        total_order::<T>(),
    ensures
        r == spec_in_order(a, b),
{
    if b.0 < a.0 {
        (b, a)
    } else {
        (a, b)
    }
}

fn sort4<T: PartialOrd + Copy>(e0: (T, usize), e1: (T, usize), e2: (T, usize), e3: (T, usize)) -> (r:
    ((T, usize), (T, usize), (T, usize), (T, usize)))
    requires
        total_order::<T>(),
    ensures
        r == spec_sort4(e0, e1, e2, e3),
{
    let (a0, a1) = in_order(e0, e1);
    let (b1, b2) = in_order(a1, e2);
    let (b0, b1) = in_order(a0, b1);
    let (c2, c3) = in_order(b2, e3);
    let (c1, c2) = in_order(b1, c2);
    let (c0, c1) = in_order(b0, c1);
    (c0, c1, c2, c3)
}

impl<T, C> HeightMap<T, C> where
    T: Copy + Add<Output = T> + Sub<Output = T> + Mul<Output = T> + Div<Output = T> + Neg<
        Output = T,
    > + PartialOrd + Zero + One + Min + Max + From<i32>,
    C: Fn(T) -> [u8; 4],
 {
    /// The side on the ground of a node of level `depth`: the number of
    /// finest cells along it, times the length of a cell's edge.
    pub open spec fn spec_extent(&self, depth: nat) -> T {
        <T as FromSpec<i32>>::from_spec(
            level_side((self.levels() - 1 - depth) as nat) as i32,
        ).mul_spec(self.block_size())
    }

    /// A quarter of the side on the ground of a node of level `depth`: how
    /// far the centres of its children lie from its own, along each axis.
    pub open spec fn spec_quarter_extent(&self, depth: nat) -> T {
        spec_half::<T>().mul_spec(spec_half::<T>()).mul_spec(self.spec_extent(depth))
    }

    /// The event of an inner node: the ray parameter at which the ray leaves
    /// the node's square, and the upper bound that the node keeps.
    pub open spec fn spec_interior_event(&self, depth: nat, x: nat, y: nat, t: T) -> IntersectionEvent<
        T,
    > {
        IntersectionEvent {
            sample: TimeHeight { t, height: self.height(depth, x, y) },
            is_interior: true,
            color: None,
        }
    }

    /// The event of a cell of the finest level, at a given ray parameter: the
    /// cell's height, and the colour of that height.
    pub open spec fn spec_leaf_event(&self, x: nat, y: nat, t: T) -> IntersectionEvent<T> {
        let height = self.height((self.levels() - 1) as nat, x, y);
        IntersectionEvent {
            sample: TimeHeight { t, height },
            is_interior: false,
            color: spec_color(self.color_map(), height),
        }
    }

    /// The ray in the frame of child `k` of a node of level `depth`.
    pub open spec fn spec_child_ray(&self, depth: nat, ray: Ray2<T>, k: usize) -> Ray2<T> {
        Ray2 {
            origin: ray.origin.spec_sum(child_shift(self.spec_quarter_extent(depth), k)),
            direction: ray.direction,
        }
    }

    /// The state in which the descent from cell `(x, y)` of level `depth`
    /// leaves a visitor that it finds in `state`, for a ray given in the
    /// frame of that node, whose centre is the frame's origin.
    ///
    /// A node whose square the ray misses is left out with all below it. An
    /// inner node is reported with its upper bound, at the parameter where
    /// the ray leaves its square; where the visitor then asks to stop, all
    /// below the node is left out, and else its four children follow, in the
    /// order of `spec_child_order`. A cell of the finest level is reported
    /// with its height and colour, unless the ray enters its square at or
    /// behind the ray's origin; the visitor's answer to it counts for
    /// nothing.
    pub open spec fn spec_descend<V: Visitor<T>>(
        &self,
        depth: nat,
        x: nat,
        y: nat,
        ray: Ray2<T>,
        state: V::State,
    ) -> V::State
        decreases self.levels() - depth,
    {
        if depth >= self.levels() {
            state
        } else {
            match spec_slab_test(ray, self.spec_extent(depth)) {
                None => state,
                Some((t_min, t_max)) => if depth + 1 < self.levels() {
                    let (s0, stop) = V::spec_visit(
                        state,
                        self.spec_interior_event(depth, x, y, t_max),
                    );
                    if stop {
                        s0
                    } else {
                        let (k0, k1, k2, k3) = spec_child_order(
                            self.spec_quarter_extent(depth),
                            ray.direction,
                        );
                        let s1 = self.spec_descend::<V>(
                            depth + 1,
                            child_cell(x, y, k0).0,
                            child_cell(x, y, k0).1,
                            self.spec_child_ray(depth, ray, k0),
                            s0,
                        );
                        let s2 = self.spec_descend::<V>(
                            depth + 1,
                            child_cell(x, y, k1).0,
                            child_cell(x, y, k1).1,
                            self.spec_child_ray(depth, ray, k1),
                            s1,
                        );
                        let s3 = self.spec_descend::<V>(
                            depth + 1,
                            child_cell(x, y, k2).0,
                            child_cell(x, y, k2).1,
                            self.spec_child_ray(depth, ray, k2),
                            s2,
                        );
                        self.spec_descend::<V>(
                            depth + 1,
                            child_cell(x, y, k3).0,
                            child_cell(x, y, k3).1,
                            self.spec_child_ray(depth, ray, k3),
                            s3,
                        )
                    }
                } else if t_min.is_le(&spec_zero::<T>()) {
                    state
                } else {
                    V::spec_visit(state, self.spec_leaf_event(x, y, t_max)).0
                },
            }
        }
    }

    /// The log after the descent into child `k` of cell `(x, y)` of level
    /// `depth`.
    pub open spec fn spec_log_child(
        &self,
        depth: nat,
        x: nat,
        y: nat,
        ray: Ray2<T>,
        k: usize,
        log: (Seq<IntersectionEvent<T>>, bool),
    ) -> (Seq<IntersectionEvent<T>>, bool) {
        self.spec_descend::<EventLog<T>>(
            depth + 1,
            child_cell(x, y, k).0,
            child_cell(x, y, k).1,
            self.spec_child_ray(depth, ray, k),
            log,
        )
    }

    /// Where the visitor answers the event of an inner node that the ray
    /// meets by asking to stop, that event is all the descent from the node
    /// hands it: nothing below the node is visited. At the root this is the
    /// whole traversal.
    pub proof fn law_stop_prunes<V: Visitor<T>>(
        &self,
        depth: nat,
        x: nat,
        y: nat,
        ray: Ray2<T>,
        state: V::State,
    )
        requires
            depth + 1 < self.levels(),
            spec_slab_test(ray, self.spec_extent(depth)) matches Some((t_min, t_max))
                && V::spec_visit(state, self.spec_interior_event(depth, x, y, t_max)).1,
        ensures
            spec_slab_test(ray, self.spec_extent(depth)) matches Some((t_min, t_max))
                && self.spec_descend::<V>(depth, x, y, ray, state) == V::spec_visit(
                state,
                self.spec_interior_event(depth, x, y, t_max),
            ).0,
    {
    }

    /// A log that asks to stop at every inner node, on a ray that meets a
    /// map of more than one level, comes away with one event more: that of
    /// the root.
    pub proof fn law_pruning_log_keeps_the_root_alone(
        &self,
        ray: Ray2<T>,
        events: Seq<IntersectionEvent<T>>,
    )
        requires
            self.levels() >= 2,
            spec_slab_test(ray, self.spec_extent(0)) is Some,
        ensures
            spec_slab_test(ray, self.spec_extent(0)) matches Some((t_min, t_max))
                && self.spec_descend::<EventLog<T>>(0, 0, 0, ray, (events, true)) == (
                events.push(self.spec_interior_event(0, 0, 0, t_max)),
                true,
            ),
    {
    }

    /// What a descent adds to a log does not hang on what the log holds: the
    /// log comes away with the events it had, followed by the events that
    /// the same descent hands an empty log.
    pub proof fn law_log_is_appended_to(
        &self,
        depth: nat,
        x: nat,
        y: nat,
        ray: Ray2<T>,
        events: Seq<IntersectionEvent<T>>,
        prune: bool,
    )
        ensures
            self.spec_descend::<EventLog<T>>(depth, x, y, ray, (events, prune)) == (
                events + self.spec_descend::<EventLog<T>>(
                    depth,
                    x,
                    y,
                    ray,
                    (Seq::empty(), prune),
                ).0,
                prune,
            ),
        decreases self.levels() - depth,
    {
        let none = Seq::<IntersectionEvent<T>>::empty();
        let full = self.spec_descend::<EventLog<T>>(depth, x, y, ray, (events, prune));
        let own = self.spec_descend::<EventLog<T>>(depth, x, y, ray, (none, prune));
        if depth < self.levels() {
            match spec_slab_test(ray, self.spec_extent(depth)) {
                None => {},
                Some((t_min, t_max)) => {
                    if depth + 1 < self.levels() && !prune {
                        let e = self.spec_interior_event(depth, x, y, t_max);
                        let (k0, k1, k2, k3) = spec_child_order(
                            self.spec_quarter_extent(depth),
                            ray.direction,
                        );
                        let a0 = (events.push(e), prune);
                        let b0 = (none.push(e), prune);
                        let a1 = self.spec_log_child(depth, x, y, ray, k0, a0);
                        let b1 = self.spec_log_child(depth, x, y, ray, k0, b0);
                        self.law_log_is_appended_to(
                            depth + 1,
                            child_cell(x, y, k0).0,
                            child_cell(x, y, k0).1,
                            self.spec_child_ray(depth, ray, k0),
                            a0.0,
                            prune,
                        );
                        self.law_log_is_appended_to(
                            depth + 1,
                            child_cell(x, y, k0).0,
                            child_cell(x, y, k0).1,
                            self.spec_child_ray(depth, ray, k0),
                            b0.0,
                            prune,
                        );
                        let a2 = self.spec_log_child(depth, x, y, ray, k1, a1);
                        let b2 = self.spec_log_child(depth, x, y, ray, k1, b1);
                        self.law_log_is_appended_to(
                            depth + 1,
                            child_cell(x, y, k1).0,
                            child_cell(x, y, k1).1,
                            self.spec_child_ray(depth, ray, k1),
                            a1.0,
                            prune,
                        );
                        self.law_log_is_appended_to(
                            depth + 1,
                            child_cell(x, y, k1).0,
                            child_cell(x, y, k1).1,
                            self.spec_child_ray(depth, ray, k1),
                            b1.0,
                            prune,
                        );
                        let a3 = self.spec_log_child(depth, x, y, ray, k2, a2);
                        let b3 = self.spec_log_child(depth, x, y, ray, k2, b2);
                        self.law_log_is_appended_to(
                            depth + 1,
                            child_cell(x, y, k2).0,
                            child_cell(x, y, k2).1,
                            self.spec_child_ray(depth, ray, k2),
                            a2.0,
                            prune,
                        );
                        self.law_log_is_appended_to(
                            depth + 1,
                            child_cell(x, y, k2).0,
                            child_cell(x, y, k2).1,
                            self.spec_child_ray(depth, ray, k2),
                            b2.0,
                            prune,
                        );
                        let a4 = self.spec_log_child(depth, x, y, ray, k3, a3);
                        let b4 = self.spec_log_child(depth, x, y, ray, k3, b3);
                        self.law_log_is_appended_to(
                            depth + 1,
                            child_cell(x, y, k3).0,
                            child_cell(x, y, k3).1,
                            self.spec_child_ray(depth, ray, k3),
                            a3.0,
                            prune,
                        );
                        self.law_log_is_appended_to(
                            depth + 1,
                            child_cell(x, y, k3).0,
                            child_cell(x, y, k3).1,
                            self.spec_child_ray(depth, ray, k3),
                            b3.0,
                            prune,
                        );
                        assert(a1.0 =~= events + b1.0);
                        assert(a2.0 =~= events + b2.0);
                        assert(a3.0 =~= events + b3.0);
                        assert(a4.0 =~= events + b4.0);
                        assert(full == a4);
                        assert(own == b4);
                    }
                },
            }
        }
        assert(full.0 =~= events + own.0);
    }

    /// A log that never asks to stop is handed, for an inner node that the
    /// ray meets, the node's own event and then all the events of its first
    /// child, all of its second, of its third and of its fourth, the
    /// children taken in the order of `spec_child_order`: no event from
    /// beneath a child comes before one from beneath a child visited
    /// earlier.
    pub proof fn law_log_lists_children_in_order(&self, depth: nat, x: nat, y: nat, ray: Ray2<T>)
        requires
            depth + 1 < self.levels(),
            spec_slab_test(ray, self.spec_extent(depth)) is Some,
        ensures
            ({
                let none = Seq::<IntersectionEvent<T>>::empty();
                let (k0, k1, k2, k3) = spec_child_order(
                    self.spec_quarter_extent(depth),
                    ray.direction,
                );
                spec_slab_test(ray, self.spec_extent(depth)) matches Some((t_min, t_max))
                    && self.spec_descend::<EventLog<T>>(depth, x, y, ray, (none, false)).0
                    == seq![self.spec_interior_event(depth, x, y, t_max)] + self.spec_log_child(
                    depth,
                    x,
                    y,
                    ray,
                    k0,
                    (none, false),
                ).0 + self.spec_log_child(depth, x, y, ray, k1, (none, false)).0
                    + self.spec_log_child(depth, x, y, ray, k2, (none, false)).0
                    + self.spec_log_child(depth, x, y, ray, k3, (none, false)).0
            }),
    {
        let none = Seq::<IntersectionEvent<T>>::empty();
        let (k0, k1, k2, k3) = spec_child_order(self.spec_quarter_extent(depth), ray.direction);
        let t_max = spec_slab_test(ray, self.spec_extent(depth))->Some_0.1;
        let e = self.spec_interior_event(depth, x, y, t_max);
        let s0 = (none.push(e), false);
        let s1 = self.spec_log_child(depth, x, y, ray, k0, s0);
        let s2 = self.spec_log_child(depth, x, y, ray, k1, s1);
        let s3 = self.spec_log_child(depth, x, y, ray, k2, s2);
        let s4 = self.spec_log_child(depth, x, y, ray, k3, s3);
        self.lemma_child_appends(depth, x, y, ray, k0, s0.0);
        self.lemma_child_appends(depth, x, y, ray, k1, s1.0);
        self.lemma_child_appends(depth, x, y, ray, k2, s2.0);
        self.lemma_child_appends(depth, x, y, ray, k3, s3.0);
        assert(self.spec_descend::<EventLog<T>>(depth, x, y, ray, (none, false)) == s4);
        assert(s0.0 =~= seq![e]);
    }

    /// `law_log_is_appended_to`, of a child and a log that never asks to
    /// stop.
    proof fn lemma_child_appends(
        &self,
        depth: nat,
        x: nat,
        y: nat,
        ray: Ray2<T>,
        k: usize,
        events: Seq<IntersectionEvent<T>>,
    )
        ensures
            self.spec_log_child(depth, x, y, ray, k, (events, false)) == (
                events + self.spec_log_child(depth, x, y, ray, k, (Seq::empty(), false)).0,
                false,
            ),
    {
        self.law_log_is_appended_to(
            depth + 1,
            child_cell(x, y, k).0,
            child_cell(x, y, k).1,
            self.spec_child_ray(depth, ray, k),
            events,
            false,
        );
    }

    /// Along a ray of direction `(1, 0)`, where the scalar's arithmetic is
    /// plain at the quarter of the node's side, a log that never asks to
    /// stop is handed all the events from the column `2 * x` beneath an
    /// inner node before any from the column `2 * x + 1`: after the node's
    /// own event come those of the children 0, 3, 1 and 2, in this order.
    pub proof fn law_rising_x_reports_lower_column_first(
        &self,
        depth: nat,
        x: nat,
        y: nat,
        ray: Ray2<T>,
    )
        requires
            depth + 1 < self.levels(),
            spec_slab_test(ray, self.spec_extent(depth)) is Some,
            ray.direction == (Vec2 { x: spec_one::<T>(), y: spec_zero::<T>() }),
            plain_arithmetic_at(self.spec_quarter_extent(depth)),
        ensures
            ({
                let none = Seq::<IntersectionEvent<T>>::empty();
                spec_slab_test(ray, self.spec_extent(depth)) matches Some((t_min, t_max))
                    && self.spec_descend::<EventLog<T>>(depth, x, y, ray, (none, false)).0
                    == seq![self.spec_interior_event(depth, x, y, t_max)] + self.spec_log_child(
                    depth,
                    x,
                    y,
                    ray,
                    0,
                    (none, false),
                ).0 + self.spec_log_child(depth, x, y, ray, 3, (none, false)).0
                    + self.spec_log_child(depth, x, y, ray, 1, (none, false)).0
                    + self.spec_log_child(depth, x, y, ray, 2, (none, false)).0
            }),
    {
        law_rising_x_visits_lower_column_first(self.spec_quarter_extent(depth));
        self.law_log_lists_children_in_order(depth, x, y, ray);
    }

    /// A ray that misses the square of a node leaves the visitor as it was.
    pub proof fn law_miss_is_silent<V: Visitor<T>>(
        &self,
        depth: nat,
        x: nat,
        y: nat,
        ray: Ray2<T>,
        state: V::State,
    )
        requires
            spec_slab_test(ray, self.spec_extent(depth)) is None,
        ensures
            self.spec_descend::<V>(depth, x, y, ray, state) == state,
    {
    }

    /// The side on the ground of a node of level `depth`.
    pub(crate) fn extent(&self, depth: usize) -> (r: T)
        requires
            self.wf(),
            depth < self.levels(),
            total_field::<T>(),
            total_from_i32::<T>(),
        ensures
            r == self.spec_extent(depth as nat),
    {
        let cells = self.side(self.num_levels - 1 - depth);
        proof {
            lemma_level_side_fits((self.num_levels - 1 - depth) as nat);
        }
        T::from(cells as i32) * self.block_size
    }

    /// The colour of a height; `None` without a colour map.
    pub(crate) fn color_of(&self, height: T) -> (r: Option<[u8; 4]>)
        requires
            self.wf(),
        ensures
            r == spec_color(self.color_map(), height),
    {
        match &self.color_gradient_op {
            Some(c) => Some(c(height)),
            None => None,
        }
    }

    /// The cell and the ray of child `k`.
    fn child(&self, depth: usize, x0: usize, y0: usize, ray_xz: Ray2<T>, q: T, k: usize) -> (r: (
        usize,
        usize,
        Ray2<T>,
    ))
        requires
            self.wf(),
            depth + 1 < self.levels(),
            x0 < level_side(depth as nat),
            y0 < level_side(depth as nat),
            k < 4,
            total_field::<T>(),
            total_from_i32::<T>(),
            q == self.spec_quarter_extent(depth as nat),
        ensures
            (r.0 as nat, r.1 as nat) == child_cell(x0 as nat, y0 as nat, k),
            r.2 == self.spec_child_ray(depth as nat, ray_xz, k),
            self.in_range((depth + 1) as nat, r.0 as nat, r.1 as nat),
    {
        let below = self.side(depth + 1);
        let right = k == 1 || k == 2;
        let lower = k == 2 || k == 3;
        let x = if right {
            2 * x0 + 1
        } else {
            2 * x0
        };
        let y = if lower {
            2 * y0 + 1
        } else {
            2 * y0
        };
        let shift_x = if right {
            q.neg()
        } else {
            q
        };
        let shift_z = if lower {
            q.neg()
        } else {
            q
        };
        (x, y, Ray2::new(ray_xz.origin + Vec2::new(shift_x, shift_z), ray_xz.direction))
    }

    /// Walks the pyramid along a ray in the ground plane, from the root down
    /// and from near to far, and hands the visitor an event for each node it
    /// comes to: an upper bound for an inner node, the height for a cell of
    /// the finest level. Where the visitor answers an inner node's event by
    /// asking to stop, nothing below that node is visited.
    ///
    /// The ray is given in the frame of the height map, whose centre is the
    /// origin. The visitor is left in the state that `spec_descend` gives
    /// from the root.
    pub fn ray_xz_insection_2pt5d<V: Visitor<T>>(&self, ray_xz: Ray2<T>, visitor: &mut V)
        requires
            self.wf(),
            total_field::<T>(),
            total_from_i32::<T>(),
        ensures
            final(visitor).state() == self.spec_descend::<V>(0, 0, 0, ray_xz, old(visitor).state()),
    {
        proof {
            self.lemma_wf();
        }
        self.ray_xz_insection_2pt5d_2(0, 0, 0, ray_xz, visitor)
    }

    fn ray_xz_insection_2pt5d_2<V: Visitor<T>>(
        &self,
        depth: usize,
        x0: usize,
        y0: usize,
        ray_xz: Ray2<T>,
        visitor: &mut V,
    )
        requires
            self.wf(),
            self.in_range(depth as nat, x0 as nat, y0 as nat),
            total_field::<T>(),
            total_from_i32::<T>(),
        ensures
            final(visitor).state() == self.spec_descend::<V>(
                depth as nat,
                x0 as nat,
                y0 as nat,
                ray_xz,
                old(visitor).state(),
            ),
        decreases self.levels() - depth,
    {
        let size2 = self.extent(depth);
        let (t_min, t_max) = match slab_test(ray_xz, size2) {
            Some(interval) => interval,
            None => {
                return ;
            },
        };
        if depth < self.num_levels - 1 {
            let height = self.cell(depth, x0, y0);
            let stop = visitor.visit(
                IntersectionEvent {
                    sample: TimeHeight { t: t_max, height },
                    is_interior: true,
                    color: None,
                },
            );
            if stop {
                return ;
            }
            let q = half::<T>() * half::<T>() * size2;
            let d = ray_xz.direction;
            let (s0, s1, s2, s3) = sort4(
                (q.neg() * d.x - q * d.y, 0usize),
                (q.neg().neg() * d.x - q * d.y, 1usize),
                (q.neg().neg() * d.x - q.neg() * d.y, 2usize),
                (q.neg() * d.x - q.neg() * d.y, 3usize),
            );
            let (x1, y1, ray1) = self.child(depth, x0, y0, ray_xz, q, s0.1);
            self.ray_xz_insection_2pt5d_2(depth + 1, x1, y1, ray1, visitor);
            let (x2, y2, ray2) = self.child(depth, x0, y0, ray_xz, q, s1.1);
            self.ray_xz_insection_2pt5d_2(depth + 1, x2, y2, ray2, visitor);
            let (x3, y3, ray3) = self.child(depth, x0, y0, ray_xz, q, s2.1);
            self.ray_xz_insection_2pt5d_2(depth + 1, x3, y3, ray3, visitor);
            let (x4, y4, ray4) = self.child(depth, x0, y0, ray_xz, q, s3.1);
            self.ray_xz_insection_2pt5d_2(depth + 1, x4, y4, ray4, visitor);
        } else {
            if t_min <= T::zero() {
                return ;
            }
            let height = self.cell(depth, x0, y0);
            let color = self.color_of(height);
            let _ = visitor.visit(
                IntersectionEvent { sample: TimeHeight { t: t_max, height }, is_interior: false, color },
            );
        }
    }
}

/// The side of a level that a height map can have is an `i32`.
pub proof fn lemma_level_side_fits(depth: nat)
    requires
        depth < MAX_LEVELS,
    ensures
        level_side(depth) <= 0x4000_0000,
    decreases MAX_LEVELS - depth,
{
    if depth + 1 < MAX_LEVELS {
        lemma_level_side_fits(depth + 1);
    } else {
        reveal_with_fuel(level_side, 31);
    }
}

} // verus!
