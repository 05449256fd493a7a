//! 3D vector algebra over fixed-point scalars.
//!
//! `Vec3` is the executable vector; its mathematical model is the ghost
//! struct `V3` with unbounded integer (raw) components. Every executable
//! operation is proved equal to the corresponding `v_*` specification.

use vstd::prelude::*;
use crate::fixed::{
    fadd, fdiv, fmul, fneg, fsqrt, fsub, sp_add, sp_div, sp_mul, sp_neg, sp_sqrt, sp_sub, ONE,
};

verus! {

/// The mathematical model of a vector: three raw fixed-point components.
pub ghost struct V3 {
    pub x: int,
    pub y: int,
    pub z: int,
}

/// The executable vector; a raw component `v` denotes `v / SCALE`.
#[derive(Clone, Copy, Debug, PartialEq, Eq, Structural)]
pub struct Vec3 {
    pub x: i64,
    pub y: i64,
    pub z: i64,
}

impl View for Vec3 {
    type V = V3;

    open spec fn view(&self) -> V3 {
        V3 { x: self.x as int, y: self.y as int, z: self.z as int }
    }
}

pub open spec fn v_zero() -> V3 {
    V3 { x: 0, y: 0, z: 0 }
}

pub open spec fn v_add(a: V3, b: V3) -> V3 {
    V3 { x: sp_add(a.x, b.x), y: sp_add(a.y, b.y), z: sp_add(a.z, b.z) }
}

pub open spec fn v_sub(a: V3, b: V3) -> V3 {
    V3 { x: sp_sub(a.x, b.x), y: sp_sub(a.y, b.y), z: sp_sub(a.z, b.z) }
}

pub open spec fn v_neg(a: V3) -> V3 {
    V3 { x: sp_neg(a.x), y: sp_neg(a.y), z: sp_neg(a.z) }
}

/// Component-wise product (used for color attenuation).
pub open spec fn v_mul(a: V3, b: V3) -> V3 {
    V3 { x: sp_mul(a.x, b.x), y: sp_mul(a.y, b.y), z: sp_mul(a.z, b.z) }
}

/// Scale a vector by the fixed-point scalar `s`.
pub open spec fn v_scale(a: V3, s: int) -> V3 {
    V3 { x: sp_mul(a.x, s), y: sp_mul(a.y, s), z: sp_mul(a.z, s) }
}

/// Divide a vector by the fixed-point scalar `s` component-wise.
pub open spec fn v_divs(a: V3, s: int) -> V3 {
    V3 { x: sp_div(a.x, s), y: sp_div(a.y, s), z: sp_div(a.z, s) }
}

/// Dot product, each component product rounded once.
pub open spec fn v_dot(a: V3, b: V3) -> int {
    sp_add(sp_add(sp_mul(a.x, b.x), sp_mul(a.y, b.y)), sp_mul(a.z, b.z))
}

pub open spec fn v_cross(a: V3, b: V3) -> V3 {
    V3 {
        x: sp_sub(sp_mul(a.y, b.z), sp_mul(a.z, b.y)),
        y: sp_sub(sp_mul(a.z, b.x), sp_mul(a.x, b.z)),
        z: sp_sub(sp_mul(a.x, b.y), sp_mul(a.y, b.x)),
    }
}

/// Euclidean length: the square root of the dot product with itself.
pub open spec fn v_len(a: V3) -> int {
    sp_sqrt(v_dot(a, a))
}

/// The unit vector in the direction of `a`; a zero length saturates
/// component-wise (the fixed-point stand-in for division by zero).
pub open spec fn v_normalize(a: V3) -> V3 {
    v_divs(a, v_len(a))
}

/// Mirror reflection of `v` about the normal `n`: `v - 2*dot(v,n)*n`.
pub open spec fn v_reflect(v: V3, n: V3) -> V3 {
    let d = v_dot(v, n);
    v_sub(v, v_scale(n, sp_add(d, d)))
}

/// Snell refraction of `v` through a surface with outward normal `n` and
/// refraction ratio `eta`; refraction fails only when the discriminant is
/// negative, and the zero vector then signals total internal reflection.
pub open spec fn v_refract(v: V3, n: V3, eta: int) -> V3 {
    let uv = v_normalize(v);
    let dt = v_dot(uv, n);
    let disc = sp_sub(ONE as int, sp_mul(sp_mul(eta, eta), sp_sub(ONE as int, sp_mul(dt, dt))));
    if disc >= 0 {
        v_sub(v_scale(v_sub(uv, v_scale(n, dt)), eta), v_scale(n, sp_sqrt(disc)))
    } else {
        v_zero()
    }
}

impl Vec3 {
    pub fn new(x: i64, y: i64, z: i64) -> (r: Vec3)
        ensures r@ == (V3 { x: x as int, y: y as int, z: z as int }),
    {
        Vec3 { x, y, z }
    }

    pub fn zero() -> (r: Vec3)
        ensures r@ == v_zero(),
    {
        Vec3 { x: 0, y: 0, z: 0 }
    }

    pub fn add(self, b: Vec3) -> (r: Vec3)
        ensures r@ == v_add(self@, b@),
    {
        Vec3 { x: fadd(self.x, b.x), y: fadd(self.y, b.y), z: fadd(self.z, b.z) }
    }

    pub fn sub(self, b: Vec3) -> (r: Vec3)
        ensures r@ == v_sub(self@, b@),
    {
        Vec3 { x: fsub(self.x, b.x), y: fsub(self.y, b.y), z: fsub(self.z, b.z) }
    }

    pub fn neg(self) -> (r: Vec3)
        ensures r@ == v_neg(self@),
    {
        Vec3 { x: fneg(self.x), y: fneg(self.y), z: fneg(self.z) }
    }

    pub fn mul(self, b: Vec3) -> (r: Vec3)
        ensures r@ == v_mul(self@, b@),
    {
        Vec3 { x: fmul(self.x, b.x), y: fmul(self.y, b.y), z: fmul(self.z, b.z) }
    }

    pub fn scale(self, s: i64) -> (r: Vec3)
        ensures r@ == v_scale(self@, s as int),
    {
        Vec3 { x: fmul(self.x, s), y: fmul(self.y, s), z: fmul(self.z, s) }
    }

    pub fn divs(self, s: i64) -> (r: Vec3)
        ensures r@ == v_divs(self@, s as int),
    {
        Vec3 { x: fdiv(self.x, s), y: fdiv(self.y, s), z: fdiv(self.z, s) }
    }

    pub fn dot(self, b: Vec3) -> (r: i64)
        ensures r as int == v_dot(self@, b@),
    {
        fadd(fadd(fmul(self.x, b.x), fmul(self.y, b.y)), fmul(self.z, b.z))
    }

    pub fn cross(self, b: Vec3) -> (r: Vec3)
        ensures r@ == v_cross(self@, b@),
    {
        Vec3 {
            x: fsub(fmul(self.y, b.z), fmul(self.z, b.y)),
            y: fsub(fmul(self.z, b.x), fmul(self.x, b.z)),
            z: fsub(fmul(self.x, b.y), fmul(self.y, b.x)),
        }
    }

    pub fn length_squared(self) -> (r: i64)
        ensures r as int == v_dot(self@, self@),
    {
        self.dot(self)
    }

    pub fn length(self) -> (r: i64)
        ensures r as int == v_len(self@),
    {
        fsqrt(self.dot(self))
    }

    pub fn normalize(self) -> (r: Vec3)
        ensures r@ == v_normalize(self@),
    {
        self.divs(self.length())
    }

    pub fn reflect(self, n: Vec3) -> (r: Vec3)
        ensures r@ == v_reflect(self@, n@),
    {
        let d: i64 = self.dot(n);
        self.sub(n.scale(fadd(d, d)))
    }

    pub fn refract(self, n: Vec3, eta: i64) -> (r: Vec3)
        ensures r@ == v_refract(self@, n@, eta as int),
    {
        let uv: Vec3 = self.normalize();
        let dt: i64 = uv.dot(n);
        let disc: i64 = fsub(ONE, fmul(fmul(eta, eta), fsub(ONE, fmul(dt, dt))));
        if disc >= 0 {
            uv.sub(n.scale(dt)).scale(eta).sub(n.scale(fsqrt(disc)))
        } else {
            Vec3::zero()
        }
    }
}

} // verus!
