//! The painter of a frame: one ray for each screen column, the terrain
//! drawn from the bottom of the screen up as the ray finds it higher.

use crate::camera::Camera;
use crate::height_map::HeightMap;
use crate::max::Max;
use crate::min::Min;
use crate::one::{spec_one, total_one, One};
use crate::quaternion::Quaternion;
use crate::ray2::Ray2;
use crate::scalar::{
    less, total_add, total_div, total_field, total_from_i32, total_mul, total_neg, total_order,
    total_sub,
};
use crate::sqrt::{total_sqrt, Sqrt};
use crate::transform3::Transform3;
use crate::truncate::{spec_truncate, total_truncate, Truncate};
use crate::vec3::Vec3;
use crate::visitor::{IntersectionEvent, Visitor};
use crate::zero::{spec_zero, total_zero, Zero};
use std::ops::{Add, Div, Mul, Neg, Sub};
use vstd::prelude::*;
use vstd::std_specs::convert::FromSpec;
use vstd::std_specs::ops::MulSpec;

verus! {

/// The width of the screen, in pixels.
pub const SCREEN_WIDTH: u32 = 320;

/// The height of the screen, in pixels.
pub const SCREEN_HEIGHT: u32 = 200;

/// The number of pixels of the screen.
pub const SCREEN_PIXELS: usize = 64000;

/// The colour of a pixel on which no terrain is drawn.
pub const BACKGROUND: u32 = 0xFF00_0000;

/// By how much a height of the field is scaled before it is drawn.
pub const HEIGHT_SCALE: i32 = 1000;

/// A colour as a pixel: fully opaque, the red component in the lowest byte,
/// then green, then blue.
pub open spec fn spec_pack_color(color: [u8; 4]) -> u32 {
    0xFF00_0000u32 | ((color[2] as u32) << 16) | ((color[1] as u32) << 8) | (color[0] as u32)
}

/// A colour as a pixel.
pub fn pack_color(color: [u8; 4]) -> (r: u32)
    ensures
        r == spec_pack_color(color),
{
    0xFF00_0000u32 | ((color[2] as u32) << 16) | ((color[1] as u32) << 8) | (color[0] as u32)
}

/// The pixel of a height that has no colour: a blue-grey, its lowest byte the
/// lowest byte of the height's magnitude.
pub open spec fn spec_grey(height: i32) -> u32 {
    let magnitude = if height < 0 {
        (0 - height) as u32
    } else {
        height as u32
    };
    0xFF80_8000u32 | (magnitude & 0xFF)
}

/// The pixel of a height that has no colour.
pub fn grey(height: i32) -> (r: u32)
    ensures
        r == spec_grey(height),
{
    let magnitude: u32 = if height < 0 {
        (0 - (height as i64)) as u32
    } else {
        height as u32
    };
    0xFF80_8000u32 | (magnitude & 0xFF)
}

/// The screen with the rows from `from` up to, and without, `to` of column
/// `column` set to `color`. The screen lies row by row, row 0 at the top.
pub open spec fn spec_paint(screen: Seq<u32>, column: u32, from: int, to: int, color: u32) -> Seq<
    u32,
> {
    Seq::new(
        screen.len(),
        |i: int|
            if i % (SCREEN_WIDTH as int) == column && from <= i / (SCREEN_WIDTH as int) < to {
                color
            } else {
                screen[i]
            },
    )
}

/// What the contracts see of a painter.
pub struct Painting<T> {
    pub camera: Camera<T>,
    /// The ray of the column that is being painted.
    pub ray_xz: Ray2<T>,
    /// The column that is being painted.
    pub column: u32,
    /// The horizon of the column: the lowest row that is yet to be painted,
    /// plus one. All below it is painted.
    pub y_max: i32,
    pub screen: Seq<u32>,
}

/// The painter of a frame, and the visitor of the rays that it sends: it
/// keeps the screen, and for the column in hand the horizon up to which the
/// column is painted.
#[verifier::reject_recursive_types(T)]
pub struct Painter<T> where
    T: Copy + Add<Output = T> + Sub<Output = T> + Mul<Output = T> + Div<Output = T> + Neg<
        Output = T,
    > + PartialOrd + Zero + One + Min + Max + From<i32> + Truncate,
 {
    camera: Camera<T>,
    ray_xz: Ray2<T>,
    column: u32,
    y_max: i32,
    screen: Vec<u32>,
}

/// The height at which a height of the field is drawn: zero for a height
/// below zero, and else `HEIGHT_SCALE` times the height.
pub open spec fn spec_scale_height<T>(height: T) -> T where
    T: Mul<Output = T> + PartialOrd + Zero + From<i32>,
 {
    if less(height, spec_zero::<T>()) {
        spec_zero::<T>()
    } else {
        height.mul_spec(<T as FromSpec<i32>>::from_spec(HEIGHT_SCALE))
    }
}

/// The screen row at which an event is seen: the row of the point of the
/// ray at the event's parameter, raised to the event's height as it is
/// drawn; cut to a whole number, and kept within the screen.
pub open spec fn spec_event_row<T>(camera: Camera<T>, ray_xz: Ray2<T>, event: IntersectionEvent<T>) -> i32 where
    T: Copy + Add<Output = T> + Sub<Output = T> + Mul<Output = T> + Div<Output = T> + Neg<
        Output = T,
    > + PartialOrd + Zero + One + From<i32> + Truncate,
 {
    let pt = ray_xz.spec_position_from_time(event.sample.t);
    let height = spec_scale_height(event.sample.height);
    let row = spec_truncate(camera.spec_project_y(Vec3 { x: pt.x, y: height, z: pt.y }));
    if row < 0 {
        0
    } else if row > SCREEN_HEIGHT - 1 {
        (SCREEN_HEIGHT - 1) as i32
    } else {
        row
    }
}

/// The pixel with which an event of a finest cell is drawn: its colour,
/// or without one the grey of its height as it is drawn.
pub open spec fn spec_event_pixel<T>(event: IntersectionEvent<T>) -> u32 where
    T: Mul<Output = T> + PartialOrd + Zero + From<i32> + Truncate,
 {
    match event.color {
        Some(color) => spec_pack_color(color),
        None => spec_grey(spec_truncate(spec_scale_height(event.sample.height))),
    }
}

impl<T> Painter<T> where
    T: Copy + Add<Output = T> + Sub<Output = T> + Mul<Output = T> + Div<Output = T> + Neg<
        Output = T,
    > + PartialOrd + Zero + One + Min + Max + From<i32> + Truncate,
 {
    /// The screen has all its pixels, the column and the horizon lie within
    /// it, and the scalar is one that the traversals take.
    #[verifier::type_invariant]
    spec fn inv(self) -> bool {
        &&& self.screen@.len() == SCREEN_PIXELS
        &&& self.column < SCREEN_WIDTH
        &&& 0 <= self.y_max <= SCREEN_HEIGHT
        &&& total_field::<T>()
        &&& total_from_i32::<T>()
        &&& total_truncate::<T>()
    }

    /// The painter as the contracts see it.
    pub closed spec fn view(&self) -> Painting<T> {
        Painting {
            camera: self.camera,
            ray_xz: self.ray_xz,
            column: self.column,
            y_max: self.y_max,
            screen: self.screen@,
        }
    }

    /// A painter with a screen of background all over, about to paint
    /// column 0 along `ray_xz`.
    pub fn new(camera: Camera<T>, ray_xz: Ray2<T>) -> (r: Painter<T>)
        requires
            total_field::<T>(),
            total_from_i32::<T>(),
            total_truncate::<T>(),
        ensures
            r@ == (Painting {
                camera,
                ray_xz,
                column: 0,
                y_max: SCREEN_HEIGHT as i32,
                screen: Seq::new(SCREEN_PIXELS as nat, |i: int| BACKGROUND),
            }),
    {
        let mut screen: Vec<u32> = Vec::with_capacity(SCREEN_PIXELS);
        let mut i: usize = 0;
        while i < SCREEN_PIXELS
            invariant
                i <= SCREEN_PIXELS,
                screen@ == Seq::new(i as nat, |k: int| BACKGROUND),
            decreases SCREEN_PIXELS - i,
        {
            screen.push(BACKGROUND);
            i = i + 1;
            assert(screen@ =~= Seq::new(i as nat, |k: int| BACKGROUND));
        }
        Painter { camera, ray_xz, column: 0, y_max: SCREEN_HEIGHT as i32, screen }
    }

    /// Turns to another column: the ray is that of the column, and nothing
    /// of the column counts as painted. A column that the screen does not
    /// have is refused, and the painter stays as it was.
    pub fn begin_column(&mut self, column: u32, ray_xz: Ray2<T>) -> (r: bool)
        ensures
            r == (column < SCREEN_WIDTH),
            r ==> final(self)@ == (Painting {
                ray_xz,
                column,
                y_max: SCREEN_HEIGHT as i32,
                ..old(self)@
            }),
            !r ==> final(self)@ == old(self)@,
    {
        proof {
            use_type_invariant(&*self);
        }
        if column < SCREEN_WIDTH {
            self.ray_xz = ray_xz;
            self.column = column;
            self.y_max = SCREEN_HEIGHT as i32;
            true
        } else {
            false
        }
    }

    /// The screen as it is painted so far.
    pub fn into_screen(self) -> (r: Vec<u32>)
        ensures
            r@ == self@.screen,
            r@.len() == SCREEN_PIXELS,
    {
        proof {
            use_type_invariant(&self);
        }
        self.screen
    }

    /// The height at which a height of the field is drawn.
    fn scale_height(height: T) -> (r: T)
        requires
            total_field::<T>(),
            total_from_i32::<T>(),
        ensures
            r == spec_scale_height(height),
    {
        if height < T::zero() {
            T::zero()
        } else {
            height * T::from(HEIGHT_SCALE)
        }
    }
}

impl<T> Visitor<T> for Painter<T> where
    T: Copy + Add<Output = T> + Sub<Output = T> + Mul<Output = T> + Div<Output = T> + Neg<
        Output = T,
    > + PartialOrd + Zero + One + Min + Max + From<i32> + Truncate,
 {
    type State = Painting<T>;

    open spec fn state(&self) -> Painting<T> {
        self@
    }

    /// An inner node whose bound is seen below the horizon hides all below
    /// it, and the painter asks to stop; nothing is painted for it. A finest
    /// cell that is seen above the horizon is painted from its row down to
    /// the horizon, and the horizon rises to its row.
    open spec fn spec_visit(state: Painting<T>, event: IntersectionEvent<T>) -> (
        Painting<T>,
        bool,
    ) {
        let row = spec_event_row(state.camera, state.ray_xz, event);
        if event.is_interior {
            (state, row > state.y_max)
        } else if row < state.y_max {
            (
                Painting {
                    y_max: row,
                    screen: spec_paint(
                        state.screen,
                        state.column,
                        row as int,
                        state.y_max as int,
                        spec_event_pixel(event),
                    ),
                    ..state
                },
                false,
            )
        } else {
            (state, false)
        }
    }

    fn visit(&mut self, event: IntersectionEvent<T>) -> (stop: bool) {
        proof {
            use_type_invariant(&*self);
        }
        let pt = self.ray_xz.position_from_time(event.sample.t);
        let height = Self::scale_height(event.sample.height);
        let y1 = self.camera.project_y(Vec3::new(pt.x, height, pt.y));
        let row = y1.truncate();
        let yi: i32 = if row < 0 {
            0
        } else if row > SCREEN_HEIGHT as i32 - 1 {
            SCREEN_HEIGHT as i32 - 1
        } else {
            row
        };
        if event.is_interior {
            return yi > self.y_max;
        }
        if yi < self.y_max {
            let color2 = match event.color {
                Some(color) => pack_color(color),
                None => grey(height.truncate()),
            };
            let ghost before = self.screen@;
            let mut y: i32 = yi;
            while y < self.y_max
                invariant
                    0 <= yi <= y <= self.y_max <= SCREEN_HEIGHT,
                    self.column < SCREEN_WIDTH,
                    self.screen@.len() == SCREEN_PIXELS,
                    self.screen@ == spec_paint(before, self.column, yi as int, y as int, color2),
                    self.camera == old(self).camera,
                    self.ray_xz == old(self).ray_xz,
                    self.column == old(self).column,
                    self.y_max == old(self).y_max,
                    before.len() == SCREEN_PIXELS,
                    total_field::<T>(),
                    total_from_i32::<T>(),
                    total_truncate::<T>(),
                decreases self.y_max - y,
            {
                assert((y as usize) * (SCREEN_WIDTH as usize) == y * 320 && y * 320 <= 199 * 320)
                    by (nonlinear_arith)
                    requires
                        0 <= y < 200,
                        SCREEN_WIDTH == 320,
                ;
                let offset = (y as usize) * (SCREEN_WIDTH as usize) + self.column as usize;
                self.screen[offset] = color2;
                y = y + 1;
                assert(self.screen@ =~= spec_paint(
                    before,
                    self.column,
                    yi as int,
                    y as int,
                    color2,
                ));
            }
            self.y_max = yi;
        }
        false
    }
}

/// How far from the middle of the terrain the camera circles.
pub const ORBIT_RADIUS: i32 = 1600;

/// How high above its circle the camera stands.
pub const CAMERA_HEIGHT: i32 = 500;

/// The camera that looks at the middle of the terrain from its circle round
/// it, turned about the upright axis by the angle of which `half_cos` and
/// `half_sin` are the cosine and the sine of the half.
///
/// Its place is the point `(ORBIT_RADIUS, 0, 0)` turned by that angle and
/// raised by `CAMERA_HEIGHT`. It looks back along the line from the middle
/// to its place on the circle, with its right hand level; its screen is
/// that of the painter.
pub open spec fn spec_orbit_camera<T>(half_cos: T, half_sin: T, screen_dist: T) -> Camera<T> where
    T: Copy + Add<Output = T> + Sub<Output = T> + Mul<Output = T> + Div<Output = T> + Neg<
        Output = T,
    > + PartialOrd + Zero + One + Sqrt<Output = T> + From<i32>,
 {
    let zero = spec_zero::<T>();
    let q = Quaternion { w: half_cos, x: zero, y: half_sin, z: zero };
    let cam_pos = q.spec_rotate(
        Vec3 { x: <T as FromSpec<i32>>::from_spec(ORBIT_RADIUS), y: zero, z: zero },
    );
    let w = cam_pos.spec_normalize();
    let up = Vec3 { x: zero, y: spec_one::<T>(), z: zero };
    let u = up.spec_cross(w).spec_normalize();
    Camera {
        space: Transform3 {
            origin: cam_pos.spec_sum(
                Vec3 { x: zero, y: <T as FromSpec<i32>>::from_spec(CAMERA_HEIGHT), z: zero },
            ),
            orientation: Quaternion::spec_from_uvw(u, w.spec_cross(u), w),
        },
        screen_width: <T as FromSpec<i32>>::from_spec(SCREEN_WIDTH as i32),
        screen_height: <T as FromSpec<i32>>::from_spec(SCREEN_HEIGHT as i32),
        screen_dist,
    }
}

/// The camera on its circle round the terrain, from the cosine and the sine
/// of half its angle on the circle and the distance of its screen.
pub fn orbit_camera<T>(half_cos: T, half_sin: T, screen_dist: T) -> (r: Camera<T>) where
    T: Copy + Add<Output = T> + Sub<Output = T> + Mul<Output = T> + Div<Output = T> + Neg<
        Output = T,
    > + PartialOrd + Zero + One + Sqrt<Output = T> + From<i32>,

    requires
        total_add::<T>(),
        total_sub::<T>(),
        total_mul::<T>(),
        total_div::<T>(),
        total_neg::<T>(),
        total_order::<T>(),
        total_zero::<T>(),
        total_one::<T>(),
        total_sqrt::<T>(),
        total_from_i32::<T>(),
    ensures
        r == spec_orbit_camera(half_cos, half_sin, screen_dist),
{
    let q = Quaternion { w: half_cos, x: T::zero(), y: half_sin, z: T::zero() };
    let cam_pos = q.rotate(Vec3::new(T::from(ORBIT_RADIUS), T::zero(), T::zero()));
    let w = cam_pos.normalize();
    let up = Vec3::new(T::zero(), T::one(), T::zero());
    let u = up.cross(w).normalize();
    Camera {
        space: Transform3::new(
            cam_pos + Vec3::new(T::zero(), T::from(CAMERA_HEIGHT), T::zero()),
            Quaternion::from_wu(w, u),
        ),
        screen_width: T::from(SCREEN_WIDTH as i32),
        screen_height: T::from(SCREEN_HEIGHT as i32),
        screen_dist,
    }
}

/// The ray of a screen column.
pub open spec fn spec_column_ray<T>(camera: Camera<T>, column: u32) -> Ray2<T> where
    T: Copy + Add<Output = T> + Sub<Output = T> + Mul<Output = T> + Div<Output = T> + Neg<
        Output = T,
    > + Zero + One + Sqrt<Output = T> + From<i32>,
 {
    camera.spec_screen_x_to_ray2(<T as FromSpec<i32>>::from_spec(column as i32))
}

/// The painting after the columns from `column` on have been painted, each
/// from the bottom of the screen up, by the descent through the height map
/// along the ray that `camera` gives the column.
pub open spec fn spec_paint_columns<T, C, V>(
    height_map: &HeightMap<T, C>,
    camera: Camera<T>,
    painting: Painting<T>,
    column: u32,
) -> Painting<T> where
    T: Copy + Add<Output = T> + Sub<Output = T> + Mul<Output = T> + Div<Output = T> + Neg<
        Output = T,
    > + PartialOrd + Zero + One + Min + Max + From<i32> + Truncate + Sqrt<Output = T>,
    C: Fn(T) -> [u8; 4],
    V: Visitor<T, State = Painting<T>>,

    decreases SCREEN_WIDTH - column,
{
    if column >= SCREEN_WIDTH {
        painting
    } else {
        let ray_xz = spec_column_ray(camera, column);
        let begun = Painting { ray_xz, column, y_max: SCREEN_HEIGHT as i32, ..painting };
        spec_paint_columns::<T, C, V>(
            height_map,
            camera,
            height_map.spec_descend::<V>(0, 0, 0, ray_xz, begun),
            (column + 1) as u32,
        )
    }
}

/// Paints a frame of the height map as the camera sees it: a screen of
/// `SCREEN_WIDTH` by `SCREEN_HEIGHT` pixels, row by row. Each column is
/// painted along its own ray, nearest terrain first and lowest on the
/// screen, over a background of `BACKGROUND`.
pub fn main2<T, C>(height_map: &HeightMap<T, C>, camera: Camera<T>) -> (screen: Vec<u32>) where
    T: Copy + Add<Output = T> + Sub<Output = T> + Mul<Output = T> + Div<Output = T> + Neg<
        Output = T,
    > + PartialOrd + Zero + One + Min + Max + From<i32> + Truncate + Sqrt<Output = T>,
    C: Fn(T) -> [u8; 4],

    requires
        height_map.wf(),
        total_field::<T>(),
        total_from_i32::<T>(),
        total_truncate::<T>(),
        total_sqrt::<T>(),
    ensures
        screen@.len() == SCREEN_PIXELS,
        screen@ == spec_paint_columns::<T, C, Painter<T>>(
            height_map,
            camera,
            Painting {
                camera,
                ray_xz: spec_column_ray(camera, 0),
                column: 0,
                y_max: SCREEN_HEIGHT as i32,
                screen: Seq::new(SCREEN_PIXELS as nat, |i: int| BACKGROUND),
            },
            0,
        ).screen,
{
    let first = match camera.screen_x_to_ray2(T::from(0i32)) {
        Some(ray_xz) => ray_xz,
        None => vstd::pervasive::unreached(),
    };
    let mut painter = Painter::new(camera, first);
    let ghost start = painter@;
    let mut x: u32 = 0;
    while x < SCREEN_WIDTH
        invariant
            x <= SCREEN_WIDTH,
            height_map.wf(),
            total_field::<T>(),
            total_from_i32::<T>(),
            total_truncate::<T>(),
            total_sqrt::<T>(),
            spec_paint_columns::<T, C, Painter<T>>(height_map, camera, painter@, x)
                == spec_paint_columns::<T, C, Painter<T>>(height_map, camera, start, 0),
        decreases SCREEN_WIDTH - x,
    {
        let ray_xz = match camera.screen_x_to_ray2(T::from(x as i32)) {
            Some(ray_xz) => ray_xz,
            None => vstd::pervasive::unreached(),
        };
        let _ = painter.begin_column(x, ray_xz);
        height_map.ray_xz_insection_2pt5d(ray_xz, &mut painter);
        x = x + 1;
    }
    painter.into_screen()
}

} // verus!
