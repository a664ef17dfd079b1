pub mod aabb;
pub mod acos;
pub mod camera;
pub mod height_map;
pub mod max;
pub mod min;
pub mod one;
pub mod quad_tree;
pub mod quaternion;
pub mod ray2;
pub mod render;
pub mod scalar;
pub mod sin;
pub mod sqrt;
pub mod transform3;
pub mod truncate;
pub mod two;
pub mod vec2;
pub mod vec3;
pub mod visitor;
pub mod zero;

pub use aabb::{slab_test, Aabb};
pub use acos::Acos;
pub use camera::Camera;
pub use height_map::{HeightMap, MAX_LEVELS};
pub use max::Max;
pub use min::Min;
pub use one::One;
pub use quad_tree::{QuadTree, QuadTreeError};
pub use quaternion::Quaternion;
pub use ray2::Ray2;
pub use render::{main2, orbit_camera, Painter, Painting};
pub use sin::Sin;
pub use sqrt::Sqrt;
pub use transform3::Transform3;
pub use truncate::Truncate;
pub use two::Two;
pub use vec2::Vec2;
pub use vec3::Vec3;
pub use visitor::{EventLog, IntersectionEvent, TimeHeight, Visitor};
pub use zero::Zero;
