//! The march over the finest level: cell by cell along the ray, in the
//! order in which the ray crosses the grid's lines.

use crate::aabb::{slab_test, spec_slab_test};
use crate::height_map::HeightMap;
use crate::max::{spec_max, Max};
use crate::min::Min;
use crate::one::{spec_one, One};
use crate::quad_tree::level_side;
use crate::ray2::Ray2;
use crate::scalar::{abs, half, spec_abs, spec_half, total_field, total_from_i32};
use crate::truncate::{spec_truncate, total_truncate, Truncate};
use crate::vec2::Vec2;
use crate::visitor::{deliver_all, IntersectionEvent, Visitor};
use crate::zero::{spec_zero, Zero};
use std::ops::{Add, Div, Mul, Neg, Sub};
use vstd::prelude::*;
use vstd::std_specs::cmp::PartialOrdIs;
use vstd::std_specs::convert::FromSpec;
use vstd::std_specs::ops::{AddSpec, DivSpec, MulSpec, SubSpec};

verus! {

/// What stays the same all along a march.
pub struct MarchPlan<T> {
    /// The side of the grid, in cells.
    pub size: int,
    /// Whether the ray's x does not fall: the march then steps to the next
    /// column, else to the one before.
    pub forward_x: bool,
    /// The same for z and the rows.
    pub forward_z: bool,
    /// How far along the ray two lines between columns lie apart.
    pub delta_x: T,
    /// How far along the ray two lines between rows lie apart.
    pub delta_z: T,
    /// The ray parameter from which the distances to the lines are taken:
    /// that at which the ray enters the grid, or zero for a ray that starts
    /// within.
    pub base: T,
}

/// Where a march stands.
pub struct MarchState<T> {
    /// The column of the present cell.
    pub map_x: int,
    /// The row of the present cell.
    pub map_z: int,
    /// How far along the ray, from the base, the next line between columns
    /// lies.
    pub side_x: T,
    /// How far along the ray, from the base, the next line between rows lies.
    pub side_z: T,
}

/// A cell of the grid that a march comes to, and the ray parameter that the
/// march reports for it.
pub struct GridHit<T> {
    pub x: int,
    pub z: int,
    pub distance: T,
}

/// One step of a march: over the nearer of the two next lines, the line
/// between rows where both are as near. It gives the state after the step,
/// and the ray parameter of the line after the one crossed, which is where
/// the ray leaves the cell it has stepped into.
pub open spec fn spec_advance<T>(plan: MarchPlan<T>, st: MarchState<T>) -> (MarchState<T>, T) where
    T: Add<Output = T> + PartialOrd,
 {
    if st.side_x.is_lt(&st.side_z) {
        let side_x = st.side_x.add_spec(plan.delta_x);
        (
            MarchState {
                map_x: if plan.forward_x {
                    st.map_x + 1
                } else {
                    st.map_x - 1
                },
                map_z: st.map_z,
                side_x,
                side_z: st.side_z,
            },
            plan.base.add_spec(side_x),
        )
    } else {
        let side_z = st.side_z.add_spec(plan.delta_z);
        (
            MarchState {
                map_x: st.map_x,
                map_z: if plan.forward_z {
                    st.map_z + 1
                } else {
                    st.map_z - 1
                },
                side_x: st.side_x,
                side_z,
            },
            plan.base.add_spec(side_z),
        )
    }
}

/// The march has left the grid on a side toward which it steps, so that it
/// cannot come back.
pub open spec fn left_grid<T>(plan: MarchPlan<T>, st: MarchState<T>) -> bool {
    ||| st.map_x < 0 && !plan.forward_x
    ||| st.map_x >= plan.size && plan.forward_x
    ||| st.map_z < 0 && !plan.forward_z
    ||| st.map_z >= plan.size && plan.forward_z
}

/// The present cell is a cell of the grid.
pub open spec fn on_grid<T>(plan: MarchPlan<T>, st: MarchState<T>) -> bool {
    0 <= st.map_x < plan.size && 0 <= st.map_z < plan.size
}

/// How many steps along one axis are left before the march leaves the grid
/// there.
pub open spec fn axis_left(size: int, forward: bool, at: int) -> nat {
    if forward {
        if at < size {
            (size - at) as nat
        } else {
            0
        }
    } else {
        if at >= 0 {
            (at + 1) as nat
        } else {
            0
        }
    }
}

/// A bound on the steps that a march has left.
pub open spec fn steps_left<T>(plan: MarchPlan<T>, st: MarchState<T>) -> nat {
    axis_left(plan.size, plan.forward_x, st.map_x) + axis_left(
        plan.size,
        plan.forward_z,
        st.map_z,
    )
}

/// The cells of the grid that a march comes to from a given state on, in
/// order: it steps until it has left the grid, and each cell of the grid
/// that it steps into counts. The cell it starts in does not.
pub open spec fn spec_hits_from<T>(plan: MarchPlan<T>, st: MarchState<T>) -> Seq<GridHit<T>> where
    T: Add<Output = T> + PartialOrd,

    decreases steps_left(plan, st),
{
    let (next, distance) = spec_advance(plan, st);
    if left_grid(plan, next) {
        Seq::empty()
    } else {
        let rest = spec_hits_from(plan, next);
        if on_grid(plan, next) {
            seq![GridHit { x: next.map_x, z: next.map_z, distance }] + rest
        } else {
            rest
        }
    }
}

/// Every cell that a march comes to is a cell of the grid.
pub proof fn lemma_hits_on_grid<T>(plan: MarchPlan<T>, st: MarchState<T>) where
    T: Add<Output = T> + PartialOrd,

    ensures
        forall|i: int|
            0 <= i < spec_hits_from(plan, st).len() ==> {
                &&& 0 <= (#[trigger] spec_hits_from(plan, st)[i]).x < plan.size
                &&& 0 <= spec_hits_from(plan, st)[i].z < plan.size
            },
    decreases steps_left(plan, st),
{
    let (next, distance) = spec_advance(plan, st);
    if !left_grid(plan, next) {
        lemma_hits_on_grid(plan, next);
        let rest = spec_hits_from(plan, next);
        let hits = spec_hits_from(plan, st);
        assert forall|i: int| 0 <= i < hits.len() implies 0 <= (#[trigger] hits[i]).x < plan.size
            && 0 <= hits[i].z < plan.size by {
            if on_grid(plan, next) {
                if i > 0 {
                    assert(hits[i] == rest[i - 1]);
                }
            }
        }
    }
}

impl<T, C> HeightMap<T, C> where
    T: Copy + Add<Output = T> + Sub<Output = T> + Mul<Output = T> + Div<Output = T> + Neg<
        Output = T,
    > + PartialOrd + Zero + One + Min + Max + From<i32> + Truncate,
    C: Fn(T) -> [u8; 4],
 {
    /// How a march along `ray` starts; `None` for a ray that misses the grid.
    ///
    /// The march starts in the cell of the point where the ray enters the
    /// grid, or of the ray's origin where the ray does not enter ahead of its
    /// origin. That point is taken relative to the grid's corner and measured
    /// in cells; its cell is what `truncate` makes of the measure. The first
    /// lines lie the fraction of a cell away that the point has yet to go.
    pub open spec fn spec_march_start(&self, ray: Ray2<T>) -> Option<
        (MarchPlan<T>, MarchState<T>),
    > {
        let extent = self.spec_extent(0);
        match spec_slab_test(ray, extent) {
            None => None,
            Some((t_min, t_max)) => {
                let zero = spec_zero::<T>();
                let block = self.block_size();
                let h = spec_half::<T>().mul_spec(extent);
                let corner = Vec2 { x: h, y: h };
                let pos = if t_min.is_ge(&zero) {
                    ray.spec_position_from_time(t_min).spec_sum(corner)
                } else {
                    ray.origin.spec_sum(corner)
                };
                let gx = pos.x.div_spec(block);
                let gz = pos.y.div_spec(block);
                let map_x = spec_truncate(gx);
                let map_z = spec_truncate(gz);
                let delta_x = spec_abs(block.div_spec(ray.direction.x));
                let delta_z = spec_abs(block.div_spec(ray.direction.y));
                let forward_x = !ray.direction.x.is_lt(&zero);
                let forward_z = !ray.direction.y.is_lt(&zero);
                let side_x = if forward_x {
                    <T as FromSpec<i32>>::from_spec(map_x).add_spec(spec_one::<T>()).sub_spec(
                        gx,
                    ).mul_spec(delta_x)
                } else {
                    gx.sub_spec(<T as FromSpec<i32>>::from_spec(map_x)).mul_spec(delta_x)
                };
                let side_z = if forward_z {
                    <T as FromSpec<i32>>::from_spec(map_z).add_spec(spec_one::<T>()).sub_spec(
                        gz,
                    ).mul_spec(delta_z)
                } else {
                    gz.sub_spec(<T as FromSpec<i32>>::from_spec(map_z)).mul_spec(delta_z)
                };
                Some(
                    (
                        MarchPlan {
                            size: level_side((self.levels() - 1) as nat) as int,
                            forward_x,
                            forward_z,
                            delta_x,
                            delta_z,
                            base: spec_max(t_min, zero),
                        },
                        MarchState { map_x: map_x as int, map_z: map_z as int, side_x, side_z },
                    ),
                )
            },
        }
    }

    /// The cells of the finest level that the march along `ray` comes to, in
    /// order, each with the ray parameter reported for it.
    pub open spec fn spec_march_hits(&self, ray: Ray2<T>) -> Seq<GridHit<T>> {
        match self.spec_march_start(ray) {
            None => Seq::empty(),
            Some((plan, st)) => spec_hits_from(plan, st),
        }
    }

    /// The events of a sequence of cells: for each cell its height and the
    /// colour of its height.
    pub open spec fn spec_events_of(&self, hits: Seq<GridHit<T>>) -> Seq<IntersectionEvent<T>> {
        Seq::new(
            hits.len(),
            |i: int| self.spec_leaf_event(hits[i].x as nat, hits[i].z as nat, hits[i].distance),
        )
    }

    /// The events of the march along `ray`.
    pub open spec fn spec_march_events(&self, ray: Ray2<T>) -> Seq<IntersectionEvent<T>> {
        self.spec_events_of(self.spec_march_hits(ray))
    }

    /// Marches over the finest level along a ray in the ground plane, and
    /// hands the visitor the height and colour of every cell that the ray
    /// crosses after the one it starts in, in the order in which it crosses
    /// them. Nothing is left out: the visitor's answers count for nothing.
    ///
    /// The ray is given in the frame of the height map, whose centre is the
    /// origin. The visitor is handed exactly the events of
    /// `spec_march_events`. The march ends for any ray: each step takes it
    /// one cell nearer to a side of the grid toward which it steps. What a
    /// ray without direction is handed is what the scalar's division by zero
    /// makes of it.
    pub fn ray_xz_intersection_2pt5d<V: Visitor<T>>(&self, ray_xz: Ray2<T>, visitor: &mut V)
        requires
            self.wf(),
            total_field::<T>(),
            total_from_i32::<T>(),
            total_truncate::<T>(),
        ensures
            final(visitor).state() == deliver_all::<T, V>(
                old(visitor).state(),
                self.spec_march_events(ray_xz),
            ),
    {
        proof {
            self.lemma_wf();
        }
        let block = self.block_size;
        let finest = self.num_levels - 1;
        let cells = self.side(finest);
        proof {
            crate::height_map::descent::lemma_level_side_fits(finest as nat);
            crate::quad_tree::lemma_level_side_positive(finest as nat);
        }
        let size: i64 = cells as i64;
        let size2 = self.extent(0);
        let t_min = match slab_test(ray_xz, size2) {
            Some(interval) => interval.0,
            None => {
                return ;
            },
        };
        let zero = T::zero();
        let h = half::<T>() * size2;
        let corner = Vec2::new(h, h);
        let pos_xz = if t_min >= zero {
            ray_xz.position_from_time(t_min) + corner
        } else {
            ray_xz.origin + corner
        };
        let gx = pos_xz.x / block;
        let gz = pos_xz.y / block;
        let start_x: i32 = gx.truncate();
        let start_z: i32 = gz.truncate();
        let delta_dist_x = abs(block / ray_xz.direction.x);
        let delta_dist_z = abs(block / ray_xz.direction.y);
        let forward_x = !(ray_xz.direction.x < zero);
        let forward_z = !(ray_xz.direction.y < zero);
        let mut side_dist_x = if forward_x {
            (T::from(start_x) + T::one() - gx) * delta_dist_x
        } else {
            (gx - T::from(start_x)) * delta_dist_x
        };
        let mut side_dist_z = if forward_z {
            (T::from(start_z) + T::one() - gz) * delta_dist_z
        } else {
            (gz - T::from(start_z)) * delta_dist_z
        };
        let base = t_min.max(zero);
        let mut map_x: i64 = start_x as i64;
        let mut map_z: i64 = start_z as i64;
        let ghost plan = MarchPlan {
            size: size as int,
            forward_x,
            forward_z,
            delta_x: delta_dist_x,
            delta_z: delta_dist_z,
            base,
        };
        proof {
            assert(self.spec_march_start(ray_xz) == Some(
                (
                    plan,
                    MarchState {
                        map_x: map_x as int,
                        map_z: map_z as int,
                        side_x: side_dist_x,
                        side_z: side_dist_z,
                    },
                ),
            ));
        }
        loop
            invariant_except_break
                i32::MIN <= map_x <= i32::MAX,
                i32::MIN <= map_z <= i32::MAX,
                deliver_all::<T, V>(old(visitor).state(), self.spec_march_events(ray_xz))
                    == deliver_all::<T, V>(
                    visitor.state(),
                    self.spec_events_of(
                        spec_hits_from(
                            plan,
                            MarchState {
                                map_x: map_x as int,
                                map_z: map_z as int,
                                side_x: side_dist_x,
                                side_z: side_dist_z,
                            },
                        ),
                    ),
                ),
            invariant
                self.wf(),
                total_field::<T>(),
                finest == self.levels() - 1,
                plan.size == size == level_side(finest as nat),
                plan.forward_x == forward_x,
                plan.forward_z == forward_z,
                plan.delta_x == delta_dist_x,
                plan.delta_z == delta_dist_z,
                plan.base == base,
                0 < size <= 0x4000_0000,
            ensures
                final(visitor).state() == deliver_all::<T, V>(
                    old(visitor).state(),
                    self.spec_march_events(ray_xz),
                ),
            decreases
                    steps_left(
                        plan,
                        MarchState {
                            map_x: map_x as int,
                            map_z: map_z as int,
                            side_x: side_dist_x,
                            side_z: side_dist_z,
                        },
                    ),
        {
            let ghost before = MarchState {
                map_x: map_x as int,
                map_z: map_z as int,
                side_x: side_dist_x,
                side_z: side_dist_z,
            };
            let dist: T;
            if side_dist_x < side_dist_z {
                side_dist_x = side_dist_x + delta_dist_x;
                map_x = if forward_x {
                    map_x + 1
                } else {
                    map_x - 1
                };
                dist = base + side_dist_x;
            } else {
                side_dist_z = side_dist_z + delta_dist_z;
                map_z = if forward_z {
                    map_z + 1
                } else {
                    map_z - 1
                };
                dist = base + side_dist_z;
            }
            let ghost next = MarchState {
                map_x: map_x as int,
                map_z: map_z as int,
                side_x: side_dist_x,
                side_z: side_dist_z,
            };
            proof {
                assert(spec_advance(plan, before) == (next, dist));
            }
            if map_x < 0 && !forward_x {
                proof {
                    assert(self.spec_events_of(spec_hits_from(plan, before)).len() == 0);
                }
                break ;
            }
            if map_x >= size && forward_x {
                proof {
                    assert(self.spec_events_of(spec_hits_from(plan, before)).len() == 0);
                }
                break ;
            }
            if map_z < 0 && !forward_z {
                proof {
                    assert(self.spec_events_of(spec_hits_from(plan, before)).len() == 0);
                }
                break ;
            }
            if map_z >= size && forward_z {
                proof {
                    assert(self.spec_events_of(spec_hits_from(plan, before)).len() == 0);
                }
                break ;
            }
            if 0 <= map_x && map_x < size {
                if 0 <= map_z && map_z < size {
                    let height = self.cell(finest, map_x as usize, map_z as usize);
                    let color = self.color_of(height);
                    let ghost event = self.spec_leaf_event(map_x as nat, map_z as nat, dist);
                    proof {
                        let rest = spec_hits_from(plan, next);
                        let hit = GridHit { x: map_x as int, z: map_z as int, distance: dist };
                        let all = self.spec_events_of(seq![hit] + rest);
                        assert(spec_hits_from(plan, before) == seq![hit] + rest);
                        assert(all[0] == event);
                        assert(all.skip(1) =~= self.spec_events_of(rest));
                    }
                    let _ = visitor.visit(
                        IntersectionEvent {
                            sample: crate::visitor::TimeHeight { t: dist, height },
                            is_interior: false,
                            color,
                        },
                    );
                }
            }
        }
    }

    /// Over a finest level that is flat, every event of the march is that of
    /// a finest cell at the level's one height.
    pub proof fn law_flat_field_marches_flat(&self, ray: Ray2<T>, height: T)
        requires
            forall|x: nat, z: nat|
                x < level_side((self.levels() - 1) as nat) && z < level_side(
                    (self.levels() - 1) as nat,
                ) ==> #[trigger] self.height((self.levels() - 1) as nat, x, z) == height,
        ensures
            forall|i: int|
                0 <= i < self.spec_march_events(ray).len() ==> {
                    &&& (#[trigger] self.spec_march_events(ray)[i]).sample.height == height
                    &&& !self.spec_march_events(ray)[i].is_interior
                },
    {
        self.law_march_stays_on_grid(ray);
        let hits = self.spec_march_hits(ray);
        assert forall|i: int| 0 <= i < self.spec_march_events(ray).len() implies (
        #[trigger] self.spec_march_events(ray)[i]).sample.height == height
            && !self.spec_march_events(ray)[i].is_interior by {
            let hit = hits[i];
            assert(self.height((self.levels() - 1) as nat, hit.x as nat, hit.z as nat) == height);
        }
    }

    /// No cell that the march comes to lies outside the finest level: its
    /// column and its row are at least zero and less than the side of that
    /// level.
    pub proof fn law_march_stays_on_grid(&self, ray: Ray2<T>)
        ensures
            forall|i: int|
                0 <= i < self.spec_march_hits(ray).len() ==> {
                    &&& 0 <= (#[trigger] self.spec_march_hits(ray)[i]).x < level_side(
                        (self.levels() - 1) as nat,
                    )
                    &&& 0 <= self.spec_march_hits(ray)[i].z < level_side(
                        (self.levels() - 1) as nat,
                    )
                },
    {
        match self.spec_march_start(ray) {
            None => {},
            Some((plan, st)) => {
                lemma_hits_on_grid(plan, st);
            },
        }
    }
}

} // verus!
