//! Rotation quaternions over fixed-point scalars.
//!
//! A rotation is carried as a (nominally unit) quaternion; applying one to a
//! vector is plain arithmetic: `v' = v + w*t + q_v x t` with
//! `t = 2 * (q_v x v)`. The identity rotation is exact.

use vstd::prelude::*;
use crate::fixed::{fneg, sp_neg, ONE};
use crate::vec3::{v_add, v_cross, v_scale, Vec3, V3};

verus! {

/// The mathematical model of a quaternion.
pub ghost struct QuatV {
    pub x: int,
    pub y: int,
    pub z: int,
    pub w: int,
}

#[derive(Clone, Copy, Debug)]
pub struct Quat {
    pub x: i64,
    pub y: i64,
    pub z: i64,
    pub w: i64,
}

impl View for Quat {
    type V = QuatV;

    open spec fn view(&self) -> QuatV {
        QuatV { x: self.x as int, y: self.y as int, z: self.z as int, w: self.w as int }
    }
}

/// The identity rotation.
pub open spec fn q_identity() -> QuatV {
    QuatV { x: 0, y: 0, z: 0, w: ONE as int }
}

/// The vector part of a quaternion.
pub open spec fn q_vec(q: QuatV) -> V3 {
    V3 { x: q.x, y: q.y, z: q.z }
}

/// The conjugate, which inverts a unit rotation.
pub open spec fn q_conjugate(q: QuatV) -> QuatV {
    QuatV { x: sp_neg(q.x), y: sp_neg(q.y), z: sp_neg(q.z), w: q.w }
}

/// Rotate `v` by `q`: `v + w*t + q_v x t` with `t = 2 * (q_v x v)`.
pub open spec fn q_rotate(q: QuatV, v: V3) -> V3 {
    let c = v_cross(q_vec(q), v);
    let t = v_add(c, c);
    v_add(v_add(v, v_scale(t, q.w)), v_cross(q_vec(q), t))
}

impl Quat {
    pub fn new(x: i64, y: i64, z: i64, w: i64) -> (r: Quat)
        ensures r@ == (QuatV { x: x as int, y: y as int, z: z as int, w: w as int }),
    {
        Quat { x, y, z, w }
    }

    /// The identity rotation.
    pub fn identity() -> (r: Quat)
        ensures r@ == q_identity(),
    {
        Quat { x: 0, y: 0, z: 0, w: ONE }
    }

    pub fn conjugate(&self) -> (r: Quat)
        ensures r@ == q_conjugate(self@),
    {
        Quat { x: fneg(self.x), y: fneg(self.y), z: fneg(self.z), w: self.w }
    }

    fn vec_part(&self) -> (r: Vec3)
        ensures r@ == q_vec(self@),
    {
        Vec3 { x: self.x, y: self.y, z: self.z }
    }

    /// Rotate a vector by this quaternion.
    pub fn rotate(&self, v: Vec3) -> (r: Vec3)
        ensures r@ == q_rotate(self@, v@),
    {
        let c: Vec3 = self.vec_part().cross(v);
        let t: Vec3 = c.add(c);
        v.add(t.scale(self.w)).add(self.vec_part().cross(t))
    }
}

/// Rotating by the identity quaternion moves nothing: the cross products and
/// the scaled term vanish exactly, so the result is the input unchanged.
pub proof fn lemma_identity_rotation(v: V3)
    requires
        crate::fixed::abs_int(v.x) <= crate::fixed::RAW_MAX as int,
        crate::fixed::abs_int(v.y) <= crate::fixed::RAW_MAX as int,
        crate::fixed::abs_int(v.z) <= crate::fixed::RAW_MAX as int,
    ensures q_rotate(q_identity(), v) == v,
{
    vstd::arithmetic::div_mod::lemma_div_of0(crate::fixed::SCALE as int);
    let c = v_cross(q_vec(q_identity()), v);
    assert(c == crate::vec3::v_zero());
    let t = v_add(c, c);
    assert(t == crate::vec3::v_zero());
    assert(v_scale(t, q_identity().w) == crate::vec3::v_zero());
    assert(v_cross(q_vec(q_identity()), t) == crate::vec3::v_zero());
    assert(v_add(v_add(v, crate::vec3::v_zero()), crate::vec3::v_zero()) == v);
}

} // verus!
