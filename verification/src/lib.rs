//! A small ray-tracing engine over fixed-point arithmetic.
//!
//! Scalars are signed 64-bit fixed-point numbers: a raw value `v` stands for
//! the real number `v / SCALE`. All arithmetic saturates at `+/-RAW_MAX`, so
//! every operation is total and carries an exact contract.

pub mod camera;
pub mod fixed;
pub mod hit;
pub mod laws;
pub mod material;
pub mod quat;
pub mod rand_src;
pub mod ray;
pub mod render;
pub mod surface;
pub mod vec3;

pub use fixed::{fadd, fdiv, fmul, fneg, fsqrt, fsub, ONE, RAW_MAX, SCALE};
pub use camera::Camera;
pub use hit::HitRecord;
pub use material::{schlick, Dielectric, Lambertian, Material, Metal};
pub use quat::Quat;
pub use rand_src::{rand_unit, random_in_unit_sphere};
pub use ray::Ray;
pub use render::{clamp_color, color, RenderMode, RenderParams, World};
pub use surface::{Cube, Hitable, HitablesList, Plane, Sphere};
pub use vec3::Vec3;
