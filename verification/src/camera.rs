//! The camera: a positionable, orientable viewport that maps normalized
//! image-plane coordinates to world-space rays.
//!
//! The orientation is a 3x3 basis (three column vectors); rotations multiply
//! the basis by an axis-aligned rotation matrix whose cosine and sine are
//! supplied by the caller, so the camera itself stays within fixed-point
//! arithmetic.

use vstd::prelude::*;
use crate::fixed::{fadd, fdiv, fmul, fneg, fsub, sp_add, sp_div, sp_mul, sp_neg, sp_sub, ONE};
use crate::ray::{Ray, RayV};
use crate::surface::TWO;
use crate::vec3::{v_add, v_normalize, v_scale, Vec3, V3};

verus! {

#[derive(Clone, Copy, Debug)]
pub struct Camera {
    pub viewport_width: i64,
    pub viewport_height: i64,
    /// Signed focal offset of the image plane along the local z axis
    /// (negative by convention).
    pub focus: i64,
    pub x_axis: Vec3,
    pub y_axis: Vec3,
    pub z_axis: Vec3,
    pub translation: Vec3,
}

/// The default camera: a 4x2 viewport one unit in front of the origin, axes
/// aligned with the world.
pub open spec fn camera_default_spec() -> Camera {
    Camera {
        viewport_width: 4_000_000,
        viewport_height: 2_000_000,
        focus: -1_000_000i64,
        x_axis: Vec3 { x: 1_000_000, y: 0, z: 0 },
        y_axis: Vec3 { x: 0, y: 1_000_000, z: 0 },
        z_axis: Vec3 { x: 0, y: 0, z: 1_000_000 },
        translation: Vec3 { x: 0, y: 0, z: 0 },
    }
}

/// The basis applied to a column of local coordinates.
pub open spec fn basis_apply(c: Camera, col: V3) -> V3 {
    v_add(
        v_add(v_scale(c.x_axis@, col.x), v_scale(c.y_axis@, col.y)),
        v_scale(c.z_axis@, col.z),
    )
}

/// The ray through normalized viewport coordinates `(u, v)`: local direction
/// `(u*w - w/2, v*h - h/2, focus)` carried to world space by the basis,
/// origin at the camera's translation.
pub open spec fn camera_ray_spec(c: Camera, u: int, v: int) -> RayV {
    let dx = sp_sub(sp_mul(u, c.viewport_width as int), sp_div(c.viewport_width as int, TWO as int));
    let dy = sp_sub(
        sp_mul(v, c.viewport_height as int),
        sp_div(c.viewport_height as int, TWO as int),
    );
    RayV {
        origin: c.translation@,
        direction: basis_apply(c, V3 { x: dx, y: dy, z: c.focus as int }),
    }
}

impl Camera {
    pub fn new() -> (r: Camera)
        ensures r == camera_default_spec(),
    {
        Camera {
            viewport_width: 4_000_000,
            viewport_height: 2_000_000,
            focus: -1_000_000,
            x_axis: Vec3::new(ONE, 0, 0),
            y_axis: Vec3::new(0, ONE, 0),
            z_axis: Vec3::new(0, 0, ONE),
            translation: Vec3::zero(),
        }
    }

    pub fn get_ray(&self, u: i64, v: i64) -> (r: Ray)
        ensures r@ == camera_ray_spec(*self, u as int, v as int),
    {
        let dx: i64 = fsub(fmul(u, self.viewport_width), fdiv(self.viewport_width, TWO));
        let dy: i64 = fsub(fmul(v, self.viewport_height), fdiv(self.viewport_height, TWO));
        let local: Vec3 = Vec3::new(dx, dy, self.focus);
        let dir: Vec3 = self.x_axis.scale(local.x).add(self.y_axis.scale(local.y)).add(
            self.z_axis.scale(local.z),
        );
        Ray::new(self.translation, dir)
    }

    /// Translate along the camera's own (normalized) up axis.
    pub fn translate_up(&mut self, step: i64)
        ensures
            final(self).translation@ == v_add(
                old(self).translation@,
                v_scale(v_normalize(old(self).y_axis@), step as int),
            ),
            final(self).viewport_width == old(self).viewport_width,
            final(self).viewport_height == old(self).viewport_height,
            final(self).focus == old(self).focus,
            final(self).x_axis == old(self).x_axis,
            final(self).y_axis == old(self).y_axis,
            final(self).z_axis == old(self).z_axis,
    {
        self.translation = self.translation.add(self.y_axis.normalize().scale(step));
    }

    /// Translate along the camera's own (normalized) right axis, negated.
    pub fn translate_left(&mut self, step: i64)
        ensures
            final(self).translation@ == v_add(
                old(self).translation@,
                v_scale(v_normalize(old(self).x_axis@), sp_neg(step as int)),
            ),
            final(self).viewport_width == old(self).viewport_width,
            final(self).viewport_height == old(self).viewport_height,
            final(self).focus == old(self).focus,
            final(self).x_axis == old(self).x_axis,
            final(self).y_axis == old(self).y_axis,
            final(self).z_axis == old(self).z_axis,
    {
        self.translation = self.translation.add(self.x_axis.normalize().scale(fneg(step)));
    }

    /// Translate along the camera's own (normalized) view axis (local -z is
    /// forward).
    pub fn translate_forward(&mut self, step: i64)
        ensures
            final(self).translation@ == v_add(
                old(self).translation@,
                v_scale(v_normalize(old(self).z_axis@), sp_neg(step as int)),
            ),
            final(self).viewport_width == old(self).viewport_width,
            final(self).viewport_height == old(self).viewport_height,
            final(self).focus == old(self).focus,
            final(self).x_axis == old(self).x_axis,
            final(self).y_axis == old(self).y_axis,
            final(self).z_axis == old(self).z_axis,
    {
        self.translation = self.translation.add(self.z_axis.normalize().scale(fneg(step)));
    }

    /// Multiply the basis by a rotation about the world X axis whose cosine
    /// and sine are `cos_a` and `sin_a`.
    pub fn rotate_pitch(&mut self, cos_a: i64, sin_a: i64)
        ensures
            final(self).x_axis@ == basis_apply(*old(self), V3 { x: ONE as int, y: 0, z: 0 }),
            final(self).y_axis@ == basis_apply(
                *old(self),
                V3 { x: 0, y: cos_a as int, z: sin_a as int },
            ),
            final(self).z_axis@ == basis_apply(
                *old(self),
                V3 { x: 0, y: sp_neg(sin_a as int), z: cos_a as int },
            ),
            final(self).translation == old(self).translation,
            final(self).viewport_width == old(self).viewport_width,
            final(self).viewport_height == old(self).viewport_height,
            final(self).focus == old(self).focus,
    {
        let nx: Vec3 = self.apply_col(Vec3::new(ONE, 0, 0));
        let ny: Vec3 = self.apply_col(Vec3::new(0, cos_a, sin_a));
        let nz: Vec3 = self.apply_col(Vec3::new(0, fneg(sin_a), cos_a));
        self.x_axis = nx;
        self.y_axis = ny;
        self.z_axis = nz;
    }

    /// Multiply the basis by a rotation about the world Y axis whose cosine
    /// and sine are `cos_a` and `sin_a`.
    pub fn rotate_yaw(&mut self, cos_a: i64, sin_a: i64)
        ensures
            final(self).x_axis@ == basis_apply(
                *old(self),
                V3 { x: cos_a as int, y: 0, z: sp_neg(sin_a as int) },
            ),
            final(self).y_axis@ == basis_apply(*old(self), V3 { x: 0, y: ONE as int, z: 0 }),
            final(self).z_axis@ == basis_apply(
                *old(self),
                V3 { x: sin_a as int, y: 0, z: cos_a as int },
            ),
            final(self).translation == old(self).translation,
            final(self).viewport_width == old(self).viewport_width,
            final(self).viewport_height == old(self).viewport_height,
            final(self).focus == old(self).focus,
    {
        let nx: Vec3 = self.apply_col(Vec3::new(cos_a, 0, fneg(sin_a)));
        let ny: Vec3 = self.apply_col(Vec3::new(0, ONE, 0));
        let nz: Vec3 = self.apply_col(Vec3::new(sin_a, 0, cos_a));
        self.x_axis = nx;
        self.y_axis = ny;
        self.z_axis = nz;
    }

    /// Shift the focal offset, changing the field of view.
    pub fn change_focus(&mut self, step: i64)
        ensures
            final(self).focus as int == sp_add(old(self).focus as int, step as int),
            final(self).translation == old(self).translation,
            final(self).viewport_width == old(self).viewport_width,
            final(self).viewport_height == old(self).viewport_height,
            final(self).x_axis == old(self).x_axis,
            final(self).y_axis == old(self).y_axis,
            final(self).z_axis == old(self).z_axis,
    {
        self.focus = fadd(self.focus, step);
    }

    fn apply_col(&self, col: Vec3) -> (r: Vec3)
        ensures r@ == basis_apply(*self, col@),
    {
        self.x_axis.scale(col.x).add(self.y_axis.scale(col.y)).add(self.z_axis.scale(col.z))
    }
}

impl Default for Camera {
    fn default() -> (r: Camera)
        ensures r == camera_default_spec(),
    {
        Camera::new()
    }
}

} // verus!
