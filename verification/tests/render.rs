use height_map_test::render::{
    grey, pack_color, BACKGROUND, CAMERA_HEIGHT, HEIGHT_SCALE, ORBIT_RADIUS, SCREEN_HEIGHT,
    SCREEN_PIXELS, SCREEN_WIDTH,
};
use height_map_test::{
    main2, orbit_camera, Camera, HeightMap, IntersectionEvent, Max, Min, One, Painter, Quaternion, Ray2, Sqrt,
    TimeHeight, Transform3, Truncate, Vec2, Vec3, Visitor, Zero,
};
use std::ops::{Add, Div, Mul, Neg, Sub};

/// Double precision behind the library's scalar interface.
#[derive(Clone, Copy, Debug, PartialEq, PartialOrd)]
struct Real(f64);

impl Add for Real {
    type Output = Real;
    fn add(self, rhs: Real) -> Real {
        Real(self.0 + rhs.0)
    }
}

impl Sub for Real {
    type Output = Real;
    fn sub(self, rhs: Real) -> Real {
        Real(self.0 - rhs.0)
    }
}

impl Mul for Real {
    type Output = Real;
    fn mul(self, rhs: Real) -> Real {
        Real(self.0 * rhs.0)
    }
}

impl Div for Real {
    type Output = Real;
    fn div(self, rhs: Real) -> Real {
        Real(self.0 / rhs.0)
    }
}

impl Neg for Real {
    type Output = Real;
    fn neg(self) -> Real {
        Real(-self.0)
    }
}

impl Zero for Real {
    fn zero() -> Real {
        Real(0.0)
    }
}

impl One for Real {
    fn one() -> Real {
        Real(1.0)
    }
}

impl Min for Real {
    fn min(self, b: Real) -> Real {
        Real(self.0.min(b.0))
    }
}

impl Max for Real {
    fn max(self, b: Real) -> Real {
        Real(self.0.max(b.0))
    }
}

impl From<i32> for Real {
    fn from(v: i32) -> Real {
        Real(v as f64)
    }
}

impl Truncate for Real {
    fn truncate(self) -> i32 {
        self.0 as i32
    }
}

impl Sqrt for Real {
    type Output = Real;
    fn sqrt(self) -> Real {
        Real(self.0.sqrt())
    }
}

/// A camera 125 above the origin that looks along falling z; the screen lies
/// 100 before it.
fn camera() -> Camera<Real> {
    Camera {
        space: Transform3::new(
            Vec3::new(Real(0.0), Real(125.0), Real(0.0)),
            Quaternion::identity(),
        ),
        screen_width: Real(320.0),
        screen_height: Real(200.0),
        screen_dist: Real(100.0),
    }
}

fn ahead() -> Ray2<Real> {
    Ray2::new(Vec2::new(Real(0.0), Real(0.0)), Vec2::new(Real(0.0), Real(-1.0)))
}

fn painter(column: u32) -> Painter<Real> {
    let mut p = Painter::new(camera(), ahead());
    assert!(p.begin_column(column, ahead()));
    p
}

fn event(t: f64, height: f64, is_interior: bool, color: Option<[u8; 4]>) -> IntersectionEvent<Real> {
    IntersectionEvent { sample: TimeHeight { t: Real(t), height: Real(height) }, is_interior, color }
}

/// The rows of a column that do not show the background, and what they show
/// where they all show the same.
fn painted(screen: &[u32], column: usize) -> (Vec<usize>, Option<u32>) {
    let rows: Vec<usize> =
        (0..200).filter(|row| screen[row * 320 + column] != BACKGROUND).collect();
    let first = rows.first().map(|row| screen[row * 320 + column]);
    let same = rows.iter().all(|row| Some(screen[row * 320 + column]) == first);
    (rows, if same { first } else { None })
}

#[test]
fn the_screen_measures_320_by_200() {
    assert_eq!((SCREEN_WIDTH, SCREEN_HEIGHT, SCREEN_PIXELS), (320, 200, 64000));
    assert_eq!(BACKGROUND, 0xFF00_0000);
    assert_eq!(HEIGHT_SCALE, 1000);
}

#[test]
fn a_colour_is_packed_opaque_with_red_lowest() {
    assert_eq!(pack_color([1, 2, 3, 4]), 0xFF03_0201);
    assert_eq!(pack_color([0xAA, 0xBB, 0xCC, 0]), 0xFFCC_BBAA);
    assert_eq!(pack_color([0, 0, 0, 255]), 0xFF00_0000);
}

#[test]
fn a_height_without_colour_is_grey_by_its_lowest_byte() {
    assert_eq!(grey(0), 0xFF80_8000);
    assert_eq!(grey(200), 0xFF80_80C8);
    assert_eq!(grey(256), 0xFF80_8000);
    assert_eq!(grey(-3), 0xFF80_8003);
    assert_eq!(grey(i32::MAX), 0xFF80_80FF);
    assert_eq!(grey(i32::MIN), 0xFF80_8000);
}

#[test]
fn a_new_painter_shows_the_background_all_over() {
    let screen = Painter::new(camera(), ahead()).into_screen();
    assert_eq!(screen.len(), 64000);
    assert!(screen.iter().all(|pixel| *pixel == BACKGROUND));
}

#[test]
fn a_column_that_the_screen_lacks_is_refused() {
    let mut p = Painter::new(camera(), ahead());
    assert!(p.begin_column(319, ahead()));
    assert!(!p.begin_column(320, ahead()));
    assert!(!p.begin_column(u32::MAX, ahead()));
    // the painter still paints column 319
    assert!(!p.visit(event(50.0, 0.125, false, Some([1, 2, 3, 255]))));
    let screen = p.into_screen();
    assert_eq!(painted(&screen, 319), ((100..200).collect(), Some(0xFF03_0201)));
}

#[test]
fn a_cell_at_eye_level_is_painted_from_the_middle_row_down() {
    let mut p = painter(7);
    assert!(!p.visit(event(50.0, 0.125, false, Some([1, 2, 3, 255]))));
    let screen = p.into_screen();
    assert_eq!(painted(&screen, 7), ((100..200).collect(), Some(0xFF03_0201)));
    assert_eq!(painted(&screen, 6).0, Vec::<usize>::new());
    assert_eq!(painted(&screen, 8).0, Vec::<usize>::new());
}

#[test]
fn a_higher_cell_behind_is_painted_above_the_horizon_only() {
    let mut p = painter(0);
    assert!(!p.visit(event(50.0, 0.125, false, Some([1, 2, 3, 255]))));
    assert!(!p.visit(event(100.0, 0.2, false, None)));
    let screen = p.into_screen();
    for row in 0..200 {
        let expected = if row < 25 {
            BACKGROUND
        } else if row < 100 {
            0xFF80_80C8
        } else {
            0xFF03_0201
        };
        assert_eq!(screen[row * 320], expected);
    }
}

#[test]
fn a_cell_below_the_horizon_is_not_painted() {
    let mut p = painter(0);
    assert!(!p.visit(event(100.0, 0.2, false, None)));
    assert!(!p.visit(event(200.0, 0.2, false, Some([9, 9, 9, 255]))));
    assert!(!p.visit(event(100.0, 0.2, false, Some([9, 9, 9, 255]))));
    let screen = p.into_screen();
    assert_eq!(painted(&screen, 0), ((25..200).collect(), Some(0xFF80_80C8)));
}

#[test]
fn an_inner_node_below_the_horizon_asks_to_stop() {
    let mut p = painter(3);
    assert!(!p.visit(event(50.0, 0.125, false, None)));
    // a bound of 100 at a distance of 100 is seen in row 125, below row 100
    assert!(p.visit(event(100.0, 0.1, true, None)));
    // a bound of 200 there is seen in row 25
    assert!(!p.visit(event(100.0, 0.2, true, None)));
    // at the horizon itself there may be something yet
    assert!(!p.visit(event(100.0, 0.125, true, None)));
    let screen = p.into_screen();
    assert_eq!(painted(&screen, 3), ((100..200).collect(), Some(0xFF80_807D)));
}

#[test]
fn an_inner_node_paints_nothing() {
    let mut p = painter(3);
    assert!(!p.visit(event(100.0, 0.2, true, Some([1, 1, 1, 255]))));
    let screen = p.into_screen();
    assert!(screen.iter().all(|pixel| *pixel == BACKGROUND));
}

#[test]
fn a_height_below_zero_is_drawn_at_zero() {
    let mut p = painter(0);
    // at zero and a distance of 125 the ground is seen in row 200, which is
    // kept to row 199
    assert!(!p.visit(event(125.0, -5.0, false, None)));
    let screen = p.into_screen();
    assert_eq!(painted(&screen, 0), (vec![199], Some(0xFF80_8000)));
}

#[test]
fn a_row_above_the_screen_is_kept_to_the_top_row() {
    let mut p = painter(5);
    assert!(!p.visit(event(10.0, 10.0, false, Some([255, 255, 255, 255]))));
    let screen = p.into_screen();
    assert_eq!(painted(&screen, 5), ((0..200).collect(), Some(0xFFFF_FFFF)));
    // all is painted: nothing behind can show
    let mut p = painter(5);
    assert!(!p.visit(event(10.0, 10.0, false, None)));
    assert!(!p.visit(event(20.0, 10.0, true, None)));
    assert!(!p.visit(event(20.0, 10.0, false, Some([1, 1, 1, 255]))));
    assert_eq!(painted(&p.into_screen(), 5), ((0..200).collect(), Some(0xFF80_8010)));
}

#[test]
fn a_new_column_starts_from_the_bottom_again() {
    let mut p = painter(0);
    assert!(!p.visit(event(50.0, 0.125, false, Some([1, 2, 3, 255]))));
    assert!(p.begin_column(1, ahead()));
    assert!(!p.visit(event(100.0, 0.1, false, Some([4, 5, 6, 255]))));
    let screen = p.into_screen();
    assert_eq!(painted(&screen, 0), ((100..200).collect(), Some(0xFF03_0201)));
    assert_eq!(painted(&screen, 1), ((125..200).collect(), Some(0xFF06_0504)));
}

fn hill() -> HeightMap<Real, fn(Real) -> [u8; 4]> {
    let r = HeightMap::new(
        4,
        Real(40.0),
        Some((|h: Real| [(h.0 * 1000.0) as u8, 7, 9, 255]) as fn(Real) -> [u8; 4]),
        |x, z| {
            let (dx, dz) = (x as f64 - 3.5, z as f64 - 3.5);
            Real(0.2 - 0.01 * (dx * dx + dz * dz))
        },
    );
    match r {
        Ok(map) => map,
        Err(e) => panic!("no height map: {:?}", e),
    }
}

fn far_camera() -> Camera<Real> {
    Camera {
        space: Transform3::new(
            Vec3::new(Real(10.0), Real(300.0), Real(600.0)),
            Quaternion::identity(),
        ),
        screen_width: Real(320.0),
        screen_height: Real(200.0),
        screen_dist: Real(241.0),
    }
}

#[test]
fn a_frame_is_its_columns_painted_one_after_the_other() {
    let map = hill();
    let frame = main2(&map, far_camera());
    assert_eq!(frame.len(), 64000);

    let column_ray = |x: u32| match far_camera().screen_x_to_ray2(Real(x as f64)) {
        Some(r) => r,
        None => panic!("no ray for column {}", x),
    };
    let mut p = Painter::new(far_camera(), column_ray(0));
    for x in 0..320 {
        assert!(p.begin_column(x, column_ray(x)));
        map.ray_xz_insection_2pt5d(column_ray(x), &mut p);
    }
    assert_eq!(frame, p.into_screen());
}

#[test]
fn a_frame_shows_terrain_below_sky() {
    let frame = main2(&hill(), far_camera());
    // the top row is sky all along
    assert!(frame[..320].iter().all(|pixel| *pixel == BACKGROUND));
    // the hill rises toward the middle of the screen, and below its outline
    // all is terrain
    assert_eq!(painted(&frame, 100).0, (184..200).collect::<Vec<usize>>());
    assert_eq!(painted(&frame, 160).0, (139..200).collect::<Vec<usize>>());
    assert_eq!(painted(&frame, 200).0, (162..200).collect::<Vec<usize>>());
    assert_eq!(frame[139 * 320 + 160], 0xFF09_07C3);
    assert_eq!(frame[184 * 320 + 100], 0xFF09_074B);
    assert_eq!(frame.iter().filter(|pixel| **pixel != BACKGROUND).count(), 5632);
    // every painted pixel is opaque and carries the green and blue of the
    // colour map
    for pixel in frame.iter().filter(|pixel| **pixel != BACKGROUND) {
        assert_eq!(*pixel & 0xFFFF_FF00, 0xFF09_0700);
    }
    // columns that look past the map show sky alone
    assert_eq!(painted(&frame, 0).0, Vec::<usize>::new());
    assert_eq!(painted(&frame, 40).0, Vec::<usize>::new());
    assert_eq!(painted(&frame, 319).0, Vec::<usize>::new());
}

fn place_and_turn(c: &Camera<Real>) -> ((f64, f64, f64), (f64, f64, f64, f64)) {
    let (o, q) = (c.space.origin, c.space.orientation);
    ((o.x.0, o.y.0, o.z.0), (q.w.0, q.x.0, q.y.0, q.z.0))
}

#[test]
fn the_camera_starts_its_circle_on_the_x_axis() {
    assert_eq!((ORBIT_RADIUS, CAMERA_HEIGHT), (1600, 500));
    let c = orbit_camera(Real(1.0), Real(0.0), Real(241.0));
    assert_eq!(
        place_and_turn(&c),
        ((1600.0, 500.0, 0.0), (0.7071067811865476, 0.0, 0.7071067811865475, 0.0))
    );
    assert_eq!(
        (c.screen_width, c.screen_height, c.screen_dist),
        (Real(320.0), Real(200.0), Real(241.0))
    );
    // it looks back at the middle: the middle column's ray runs toward
    // falling x
    let r = match c.screen_x_to_ray2(Real(160.0)) {
        Some(r) => r,
        None => panic!("no ray for the middle column"),
    };
    assert_eq!((r.origin.x, r.origin.y), (Real(1600.0), Real(0.0)));
    assert!((r.direction.x.0 + 1.0).abs() < 1e-15 && r.direction.y.0.abs() < 1e-15);
}

#[test]
fn the_camera_half_way_round_its_circle() {
    let c = orbit_camera(Real(0.0), Real(1.0), Real(241.0));
    assert_eq!(
        place_and_turn(&c),
        ((-1600.0, 500.0, 0.0), (0.7071067811865476, 0.0, -0.7071067811865475, 0.0))
    );
}
