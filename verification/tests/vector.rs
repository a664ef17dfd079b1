use height_map_test::{
    Acos, Camera, One, Quaternion, Ray2, Sin, Sqrt, Transform3, Two, Vec2, Vec3, Zero,
};
use std::ops::{Add, Div, Mul, Neg, Sub};

/// Double precision behind the library's scalar interface.
#[derive(Clone, Copy, Debug, PartialEq, PartialOrd)]
struct Real(f64);

impl Add for Real {
    type Output = Real;
    fn add(self, rhs: Real) -> Real {
        Real(self.0 + rhs.0)
    }
}

impl Sub for Real {
    type Output = Real;
    fn sub(self, rhs: Real) -> Real {
        Real(self.0 - rhs.0)
    }
}

impl Mul for Real {
    type Output = Real;
    fn mul(self, rhs: Real) -> Real {
        Real(self.0 * rhs.0)
    }
}

impl Div for Real {
    type Output = Real;
    fn div(self, rhs: Real) -> Real {
        Real(self.0 / rhs.0)
    }
}

impl Neg for Real {
    type Output = Real;
    fn neg(self) -> Real {
        Real(-self.0)
    }
}

impl Zero for Real {
    fn zero() -> Real {
        Real(0.0)
    }
}

impl One for Real {
    fn one() -> Real {
        Real(1.0)
    }
}

impl Sqrt for Real {
    type Output = Real;
    fn sqrt(self) -> Real {
        Real(self.0.sqrt())
    }
}

impl Sin for Real {
    fn sin(self) -> Real {
        Real(self.0.sin())
    }
}

impl Acos for Real {
    fn acos(self) -> Real {
        Real(self.0.acos())
    }
}

fn v2(x: f64, y: f64) -> Vec2<Real> {
    Vec2::new(Real(x), Real(y))
}

fn v3(x: f64, y: f64, z: f64) -> Vec3<Real> {
    Vec3::new(Real(x), Real(y), Real(z))
}

fn quat(w: f64, x: f64, y: f64, z: f64) -> Quaternion<Real> {
    Quaternion { w: Real(w), x: Real(x), y: Real(y), z: Real(z) }
}

fn parts2(v: Vec2<Real>) -> (f64, f64) {
    (v.x.0, v.y.0)
}

fn parts3(v: Vec3<Real>) -> (f64, f64, f64) {
    (v.x.0, v.y.0, v.z.0)
}

fn parts4(q: Quaternion<Real>) -> (f64, f64, f64, f64) {
    (q.w.0, q.x.0, q.y.0, q.z.0)
}

fn assert_near4(got: (f64, f64, f64, f64), expected: (f64, f64, f64, f64)) {
    let close = |a: f64, b: f64| (a - b).abs() <= 1e-12;
    assert!(
        close(got.0, expected.0)
            && close(got.1, expected.1)
            && close(got.2, expected.2)
            && close(got.3, expected.3),
        "{:?} is not {:?}",
        got,
        expected
    );
}

/// The turn by a third about the diagonal: it takes x to y, y to z, z to x.
fn third_turn() -> Quaternion<Real> {
    quat(0.5, 0.5, 0.5, 0.5)
}

impl Two for Real {
    fn two() -> Real {
        Real(2.0)
    }
}

#[test]
fn the_constants_of_the_scalar() {
    assert_eq!(Real::zero() + Real::one() + Real::one(), Real::two());
}

#[test]
fn vec2_new_keeps_its_components() {
    assert_eq!(parts2(v2(1.5, -2.0)), (1.5, -2.0));
}

#[test]
fn vec2_dot() {
    assert_eq!(v2(1.0, 2.0).dot(v2(3.0, 4.0)), Real(11.0));
}

#[test]
fn vec2_length() {
    assert_eq!(v2(3.0, 4.0).length_squared(), Real(25.0));
    assert_eq!(v2(3.0, 4.0).length(), Real(5.0));
}

#[test]
fn vec2_normalize() {
    assert_eq!(parts2(v2(3.0, 4.0).normalize()), (0.6, 0.8));
    assert_eq!(parts2(v2(0.0, -100.0).normalize()), (0.0, -1.0));
}

#[test]
fn vec2_normalize_of_the_zero_vector_divides_by_zero() {
    let n = v2(0.0, 0.0).normalize();
    assert!(n.x.0.is_nan() && n.y.0.is_nan());
}

#[test]
fn vec2_operators() {
    assert_eq!(parts2(v2(1.0, 2.0) + v2(10.0, 20.0)), (11.0, 22.0));
    assert_eq!(parts2(v2(1.0, 2.0) - v2(10.0, 20.0)), (-9.0, -18.0));
    assert_eq!(parts2(v2(1.0, 2.0) * Real(3.0)), (3.0, 6.0));
}

#[test]
fn vec3_new_keeps_its_components() {
    assert_eq!(parts3(v3(1.0, 2.0, 3.0)), (1.0, 2.0, 3.0));
}

#[test]
fn vec3_dot_counts_all_three_components() {
    assert_eq!(v3(1.0, 2.0, 3.0).dot(v3(4.0, 5.0, 6.0)), Real(32.0));
    assert_eq!(v3(0.0, 0.0, 2.0).dot(v3(0.0, 0.0, 5.0)), Real(10.0));
}

#[test]
fn vec3_cross() {
    assert_eq!(parts3(v3(1.0, 0.0, 0.0).cross(v3(0.0, 1.0, 0.0))), (0.0, 0.0, 1.0));
    assert_eq!(parts3(v3(1.0, 2.0, 3.0).cross(v3(4.0, 5.0, 6.0))), (-3.0, 6.0, -3.0));
}

#[test]
fn vec3_length_counts_all_three_components() {
    assert_eq!(v3(1.0, 2.0, 2.0).length_squared(), Real(9.0));
    assert_eq!(v3(1.0, 2.0, 2.0).length(), Real(3.0));
}

#[test]
fn vec3_normalize() {
    assert_eq!(parts3(v3(0.0, 3.0, 4.0).normalize()), (0.0, 0.6, 0.8));
}

#[test]
fn vec3_operators() {
    assert_eq!(parts3(v3(1.0, 2.0, 3.0) + v3(10.0, 20.0, 30.0)), (11.0, 22.0, 33.0));
    assert_eq!(parts3(v3(1.0, 2.0, 3.0) - v3(10.0, 20.0, 30.0)), (-9.0, -18.0, -27.0));
    assert_eq!(parts3(v3(1.0, 2.0, 3.0) * Real(-2.0)), (-2.0, -4.0, -6.0));
}

#[test]
fn ray2_position_from_time() {
    let r = Ray2::new(v2(1.0, 2.0), v2(3.0, 4.0));
    assert_eq!(parts2(r.position_from_time(Real(2.0))), (7.0, 10.0));
    assert_eq!(parts2(r.position_from_time(Real(0.0))), (1.0, 2.0));
    assert_eq!(parts2(r.origin), (1.0, 2.0));
    assert_eq!(parts2(r.direction), (3.0, 4.0));
}

#[test]
fn quaternion_identity() {
    assert_eq!(parts4(Quaternion::<Real>::identity()), (1.0, 0.0, 0.0, 0.0));
}

#[test]
fn quaternion_dot() {
    assert_eq!(quat(1.0, 2.0, 3.0, 4.0).dot(quat(5.0, 6.0, 7.0, 8.0)), Real(70.0));
}

#[test]
fn quaternion_conjugate() {
    assert_eq!(parts4(quat(1.0, 2.0, -3.0, 4.0).conjugate()), (1.0, -2.0, 3.0, -4.0));
}

#[test]
fn quaternion_product() {
    let i = quat(0.0, 1.0, 0.0, 0.0);
    let j = quat(0.0, 0.0, 1.0, 0.0);
    assert_eq!(parts4(i * j), (0.0, 0.0, 0.0, 1.0));
    assert_eq!(parts4(j * i), (0.0, 0.0, 0.0, -1.0));
    assert_eq!(parts4(quat(1.0, 2.0, 3.0, 4.0) * quat(5.0, 6.0, 7.0, 8.0)), (-60.0, 12.0, 30.0, 24.0));
}

#[test]
fn quaternion_rotate() {
    assert_eq!(parts3(third_turn().rotate(v3(1.0, 2.0, 3.0))), (3.0, 1.0, 2.0));
    assert_eq!(parts3(Quaternion::<Real>::identity().rotate(v3(1.0, 2.0, 3.0))), (1.0, 2.0, 3.0));
}

#[test]
fn quaternion_of_the_standard_axes_is_the_identity() {
    let (x, y, z) = (v3(1.0, 0.0, 0.0), v3(0.0, 1.0, 0.0), v3(0.0, 0.0, 1.0));
    assert_eq!(parts4(Quaternion::from_uv(x, y)), (1.0, 0.0, 0.0, 0.0));
    assert_eq!(parts4(Quaternion::from_vw(y, z)), (1.0, 0.0, 0.0, 0.0));
    assert_eq!(parts4(Quaternion::from_wu(z, x)), (1.0, 0.0, 0.0, 0.0));
}

#[test]
fn quaternion_of_a_half_turn_about_each_axis() {
    // about x: by the first diagonal entry
    assert_eq!(
        parts4(Quaternion::from_uv(v3(1.0, 0.0, 0.0), v3(0.0, -1.0, 0.0))),
        (0.0, 1.0, 0.0, 0.0)
    );
    // about y: by the second
    assert_eq!(
        parts4(Quaternion::from_uv(v3(-1.0, 0.0, 0.0), v3(0.0, 1.0, 0.0))),
        (0.0, 0.0, 1.0, 0.0)
    );
    // about z: by the third
    assert_eq!(
        parts4(Quaternion::from_uv(v3(-1.0, 0.0, 0.0), v3(0.0, -1.0, 0.0))),
        (0.0, 0.0, 0.0, 1.0)
    );
}

#[test]
fn quaternion_of_a_quarter_turn() {
    // about z: x goes to y, y to -x
    assert_eq!(
        parts4(Quaternion::from_uv(v3(0.0, 1.0, 0.0), v3(-1.0, 0.0, 0.0))),
        (0.7071067811865476, 0.0, 0.0, 0.7071067811865475)
    );
    // about y: x goes to -z, z to x
    assert_eq!(
        parts4(Quaternion::from_wu(v3(1.0, 0.0, 0.0), v3(0.0, 0.0, -1.0))),
        (0.7071067811865476, 0.0, 0.7071067811865475, 0.0)
    );
}

#[test]
fn quaternion_from_axes_turns_the_axes_onto_them() {
    let q = Quaternion::from_uv(v3(0.0, 1.0, 0.0), v3(-1.0, 0.0, 0.0));
    let turned = parts3(q.rotate(v3(1.0, 0.0, 0.0)));
    assert!((turned.0 - 0.0).abs() < 1e-15 && (turned.1 - 1.0).abs() < 1e-15 && turned.2 == 0.0);
}

#[test]
fn slerp_between_near_parallel_quaternions_is_linear() {
    let a = quat(1.0, 0.0, 0.0, 0.0);
    assert_eq!(parts4(a.slerp(a, Real(0.25), true)), (1.0, 0.0, 0.0, 0.0));
    assert_eq!(parts4(a.slerp(quat(-1.0, 0.0, 0.0, 0.0), Real(0.25), false)), (0.5, 0.0, 0.0, 0.0));
    assert_eq!(parts4(a.slerp(quat(-1.0, 0.0, 0.0, 0.0), Real(0.25), true)), (-1.0, 0.0, 0.0, 0.0));
}

#[test]
fn slerp_halfway_between_perpendicular_quaternions() {
    let got = quat(1.0, 0.0, 0.0, 0.0).slerp(quat(0.0, 1.0, 0.0, 0.0), Real(0.5), false);
    assert_near4(parts4(got), (0.7071067811865475, 0.7071067811865475, 0.0, 0.0));
}

#[test]
fn slerp_a_quarter_of_the_way() {
    let got = quat(1.0, 0.0, 0.0, 0.0).slerp(quat(0.0, 1.0, 0.0, 0.0), Real(0.25), true);
    assert_near4(parts4(got), (0.9238795325112867, 0.3826834323650898, 0.0, 0.0));
}

#[test]
fn slerp_at_the_ends() {
    let a = quat(1.0, 0.0, 0.0, 0.0);
    let b = quat(0.0, 0.0, 1.0, 0.0);
    assert_near4(parts4(a.slerp(b, Real(0.0), false)), (1.0, 0.0, 0.0, 0.0));
    assert_near4(parts4(a.slerp(b, Real(1.0), false)), (0.0, 0.0, 1.0, 0.0));
}

#[test]
fn slerp_flips_toward_the_shorter_arc() {
    let a = quat(1.0, 0.0, 0.0, 0.0);
    let b = quat(-0.5, 0.0, -0.5, 0.0);
    assert_near4(
        parts4(a.slerp(b, Real(0.5), true)),
        (-0.8660254037844386, 0.0, -0.28867513459481287, 0.0),
    );
    assert_near4(
        parts4(a.slerp(b, Real(0.5), false)),
        (0.28867513459481287, 0.0, -0.28867513459481287, 0.0),
    );
}

#[test]
fn transform3_takes_vectors_and_points_both_ways() {
    let t = Transform3::new(v3(10.0, 20.0, 30.0), third_turn());
    assert_eq!(parts3(t.vector_from_space(v3(1.0, 2.0, 3.0))), (3.0, 1.0, 2.0));
    assert_eq!(parts3(t.vector_to_space(v3(3.0, 1.0, 2.0))), (1.0, 2.0, 3.0));
    assert_eq!(parts3(t.point_from_space(v3(1.0, 2.0, 3.0))), (13.0, 21.0, 32.0));
    assert_eq!(parts3(t.point_to_space(v3(13.0, 21.0, 32.0))), (1.0, 2.0, 3.0));
}

#[test]
fn transform3_new_keeps_its_parts() {
    let t = Transform3::new(v3(1.0, 2.0, 3.0), quat(4.0, 5.0, 6.0, 7.0));
    assert_eq!(parts3(t.origin), (1.0, 2.0, 3.0));
    assert_eq!(parts4(t.orientation), (4.0, 5.0, 6.0, 7.0));
}

fn camera() -> Camera<Real> {
    Camera {
        space: Transform3::new(v3(0.0, 10.0, 0.0), Quaternion::identity()),
        screen_width: Real(320.0),
        screen_height: Real(200.0),
        screen_dist: Real(100.0),
    }
}

#[test]
fn camera_project_y() {
    assert_eq!(camera().project_y(v3(5.0, 30.0, -50.0)), Real(60.0));
    assert_eq!(camera().project_y(v3(5.0, 10.0, -50.0)), Real(100.0));
    assert_eq!(camera().project_y(v3(0.0, -40.0, -100.0)), Real(150.0));
}

#[test]
fn camera_project() {
    assert_eq!(parts2(camera().project(v3(5.0, 30.0, -50.0))), (170.0, 60.0));
    assert_eq!(parts2(camera().project(v3(-80.0, 10.0, -100.0))), (80.0, 100.0));
}

#[test]
fn camera_screen_x_to_ray2() {
    let middle = match camera().screen_x_to_ray2(Real(160.0)) {
        Some(r) => r,
        None => panic!("no ray for the middle column"),
    };
    assert_eq!(parts2(middle.origin), (0.0, 0.0));
    assert_eq!(parts2(middle.direction), (0.0, -1.0));
    let right = match camera().screen_x_to_ray2(Real(260.0)) {
        Some(r) => r,
        None => panic!("no ray for column 260"),
    };
    assert_eq!(parts2(right.direction), (0.7071067811865475, -0.7071067811865475));
}

#[test]
fn camera_ray_starts_below_the_camera() {
    let mut c = camera();
    c.space = Transform3::new(v3(7.0, 500.0, -9.0), third_turn());
    let r = match c.screen_x_to_ray2(Real(160.0)) {
        Some(r) => r,
        None => panic!("no ray for the middle column"),
    };
    assert_eq!(parts2(r.origin), (7.0, -9.0));
    // the camera looks down its own -z, which the third turn takes to -x
    assert_eq!(parts2(r.direction), (-1.0, 0.0));
}
