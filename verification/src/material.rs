//! The material model: Lambertian diffuse, fuzzed metal, and dielectric
//! scattering.
//!
//! Scattering that draws randomness is split in two: a deterministic
//! `scatter_with`, whose random inputs are arguments and whose contract is
//! exact, and `scatter`, which draws the randomness and calls it.

use vstd::prelude::*;
use crate::fixed::{fadd, fdiv, fmul, fsub, sp_add, sp_div, sp_mul, sp_sub, ONE};
use crate::hit::{HitRecord, HitV};
use crate::rand_src::{rand_unit, random_in_unit_sphere};
use crate::ray::{Ray, RayV};
use crate::vec3::{
    v_add, v_dot, v_len, v_neg, v_normalize, v_reflect, v_refract, v_scale, v_sub, v_zero, Vec3,
    V3,
};

verus! {

#[derive(Clone, Copy, Debug)]
pub struct Lambertian {
    pub albedo: Vec3,
}

impl Lambertian {
    pub fn new(albedo: Vec3) -> (r: Lambertian)
        ensures r.albedo == albedo,
    {
        Lambertian { albedo }
    }
}

#[derive(Clone, Copy, Debug)]
pub struct Metal {
    pub albedo: Vec3,
    pub fuzz: i64,
}

impl Metal {
    /// The fuzz factor is clamped to at most one at construction.
    pub fn new(albedo: Vec3, fuzz: i64) -> (r: Metal)
        ensures
            r.albedo == albedo,
            r.fuzz == if fuzz < ONE { fuzz } else { ONE },
    {
        Metal { albedo, fuzz: if fuzz < ONE { fuzz } else { ONE } }
    }
}

#[derive(Clone, Copy, Debug)]
pub struct Dielectric {
    pub refraction_index: i64,
}

impl Dielectric {
    pub fn new(refraction_index: i64) -> (r: Dielectric)
        ensures r.refraction_index == refraction_index,
    {
        Dielectric { refraction_index }
    }
}

/// The closed set of materials, dispatched by pattern matching.
#[derive(Clone, Copy, Debug)]
pub enum Material {
    Lambertian(Lambertian),
    Metal(Metal),
    Dielectric(Dielectric),
}

/// The unit (no absorption) color.
pub open spec fn v_one() -> V3 {
    V3 { x: ONE as int, y: ONE as int, z: ONE as int }
}

/// A point strictly inside the unit ball.
pub open spec fn in_unit_ball(rv: V3) -> bool {
    v_dot(rv, rv) < ONE as int
}

/// Fifth power, each multiplication rounded.
pub open spec fn sp_pow5(x: int) -> int {
    sp_mul(sp_mul(sp_mul(sp_mul(x, x), x), x), x)
}

/// The Schlick base reflectance `((1 - n) / (1 + n))^2`.
pub open spec fn sp_schlick_r0(refraction_index: int) -> int {
    let q = sp_div(sp_sub(ONE as int, refraction_index), sp_add(ONE as int, refraction_index));
    sp_mul(q, q)
}

/// Schlick's approximation of Fresnel reflectance:
/// `r0 + (1 - r0) * (1 - cosine)^5`.
pub open spec fn sp_schlick(cosine: int, refraction_index: int) -> int {
    let r0 = sp_schlick_r0(refraction_index);
    sp_add(r0, sp_mul(sp_sub(ONE as int, r0), sp_pow5(sp_sub(ONE as int, cosine))))
}

/// Schlick's approximation of Fresnel reflectance.
pub fn schlick(cosine: i64, refraction_index: i64) -> (r: i64)
    ensures r as int == sp_schlick(cosine as int, refraction_index as int),
{
    let q: i64 = fdiv(fsub(ONE, refraction_index), fadd(ONE, refraction_index));
    let r0: i64 = fmul(q, q);
    let omc: i64 = fsub(ONE, cosine);
    let p5: i64 = fmul(fmul(fmul(fmul(omc, omc), omc), omc), omc);
    fadd(r0, fmul(fsub(ONE, r0), p5))
}

/// Lambertian scatter toward `p + normal + rv`: attenuation is the albedo.
pub open spec fn lambertian_scatter_spec(m: Lambertian, hit: HitV, rv: V3) -> (V3, RayV) {
    let target = v_add(v_add(hit.p, hit.normal), rv);
    (m.albedo@, RayV { origin: hit.p, direction: v_sub(target, hit.p) })
}

/// Metal scatter: the normalized incoming direction mirrored about the
/// normal, perturbed by `fuzz * rv`; absorbed when the perturbed direction's
/// dot with the normal is not negative.
pub open spec fn metal_scatter_spec(
    m: Metal,
    ray: RayV,
    hit: HitV,
    rv: V3,
) -> Option<(V3, RayV)> {
    let reflected = v_reflect(v_normalize(ray.direction), hit.normal);
    let dir = v_add(reflected, v_scale(rv, m.fuzz as int));
    if v_dot(dir, hit.normal) < 0 {
        Some((m.albedo@, RayV { origin: hit.p, direction: dir }))
    } else {
        None
    }
}

/// Whether the dielectric refracts outward (the ray leaves the solid side).
pub open spec fn diel_exiting(ray: RayV, hit: HitV) -> bool {
    v_dot(ray.direction, hit.normal) > 0
}

pub open spec fn diel_outward(ray: RayV, hit: HitV) -> V3 {
    if diel_exiting(ray, hit) { v_neg(hit.normal) } else { hit.normal }
}

pub open spec fn diel_eta(m: Dielectric, ray: RayV, hit: HitV) -> int {
    if diel_exiting(ray, hit) {
        m.refraction_index as int
    } else {
        sp_div(ONE as int, m.refraction_index as int)
    }
}

pub open spec fn diel_cosine(m: Dielectric, ray: RayV, hit: HitV) -> int {
    let dn = v_dot(ray.direction, hit.normal);
    if diel_exiting(ray, hit) {
        sp_div(sp_mul(m.refraction_index as int, dn), v_len(ray.direction))
    } else {
        sp_div(sp_sub(0, dn), v_len(ray.direction))
    }
}

/// The reflectance probability: Schlick's value, forced to one when
/// refraction is geometrically impossible.
pub open spec fn diel_reflect_prob(m: Dielectric, ray: RayV, hit: HitV) -> int {
    let refracted = v_refract(ray.direction, diel_outward(ray, hit), diel_eta(m, ray, hit));
    if refracted != v_zero() {
        sp_schlick(diel_cosine(m, ray, hit), m.refraction_index as int)
    } else {
        ONE as int
    }
}

/// Dielectric scatter: under total internal reflection (the zero-vector
/// refraction sentinel) every draw reflects, so the sentinel is consumed
/// internally and never surfaces; otherwise reflect exactly when the uniform
/// draw `coin` falls below the reflectance probability, else refract. Never
/// tints and never absorbs.
pub open spec fn dielectric_scatter_spec(
    m: Dielectric,
    ray: RayV,
    hit: HitV,
    coin: int,
) -> (V3, RayV) {
    let reflected = v_reflect(ray.direction, hit.normal);
    let refracted = v_refract(ray.direction, diel_outward(ray, hit), diel_eta(m, ray, hit));
    if refracted == v_zero() || coin < diel_reflect_prob(m, ray, hit) {
        (v_one(), RayV { origin: hit.p, direction: reflected })
    } else {
        (v_one(), RayV { origin: hit.p, direction: refracted })
    }
}

/// The view of an optional scatter result.
pub open spec fn scatter_view(r: Option<(Vec3, Ray)>) -> Option<(V3, RayV)> {
    match r {
        Some(p) => Some((p.0@, p.1@)),
        None => None,
    }
}

impl Lambertian {
    pub fn scatter_with(&self, hit: &HitRecord, rv: Vec3) -> (r: (Vec3, Ray))
        ensures (r.0@, r.1@) == lambertian_scatter_spec(*self, hit@, rv@),
    {
        let target: Vec3 = hit.p.add(hit.normal).add(rv);
        (self.albedo, Ray::new(hit.p, target.sub(hit.p)))
    }
}

impl Metal {
    pub fn scatter_with(&self, in_ray: &Ray, hit: &HitRecord, rv: Vec3) -> (r: Option<(Vec3, Ray)>)
        ensures scatter_view(r) == metal_scatter_spec(*self, in_ray@, hit@, rv@),
    {
        let reflected: Vec3 = in_ray.direction.normalize().reflect(hit.normal);
        let dir: Vec3 = reflected.add(rv.scale(self.fuzz));
        if dir.dot(hit.normal) < 0 {
            Some((self.albedo, Ray::new(hit.p, dir)))
        } else {
            None
        }
    }
}

impl Dielectric {
    pub fn scatter_with(&self, in_ray: &Ray, hit: &HitRecord, coin: i64) -> (r: (Vec3, Ray))
        ensures (r.0@, r.1@) == dielectric_scatter_spec(*self, in_ray@, hit@, coin as int),
    {
        let reflected: Vec3 = in_ray.direction.reflect(hit.normal);
        let dn: i64 = in_ray.direction.dot(hit.normal);
        let outward: Vec3 = if dn > 0 { hit.normal.neg() } else { hit.normal };
        let eta: i64 = if dn > 0 {
            self.refraction_index
        } else {
            fdiv(ONE, self.refraction_index)
        };
        let cosine: i64 = if dn > 0 {
            fdiv(fmul(self.refraction_index, dn), in_ray.direction.length())
        } else {
            fdiv(fsub(0, dn), in_ray.direction.length())
        };
        let refracted: Vec3 = in_ray.direction.refract(outward, eta);
        let reflect_prob: i64 = if refracted != Vec3::zero() {
            schlick(cosine, self.refraction_index)
        } else {
            ONE
        };
        let white: Vec3 = Vec3::new(ONE, ONE, ONE);
        if refracted == Vec3::zero() || coin < reflect_prob {
            (white, Ray::new(hit.p, reflected))
        } else {
            (white, Ray::new(hit.p, refracted))
        }
    }
}

impl Material {
    /// Scatter an incoming ray at a hit: the random inputs are drawn here and
    /// handed to the deterministic `scatter_with` of the hit's material.
    pub fn scatter(&self, in_ray: &Ray, hit: &HitRecord) -> (r: Option<(Vec3, Ray)>)
        ensures
            (match *self {
                Material::Lambertian(m) => exists|rv: V3|
                    in_unit_ball(rv) && scatter_view(r) == Some(
                        #[trigger] lambertian_scatter_spec(m, hit@, rv),
                    ),
                Material::Metal(m) => exists|rv: V3|
                    in_unit_ball(rv) && scatter_view(r) == #[trigger] metal_scatter_spec(
                        m,
                        in_ray@,
                        hit@,
                        rv,
                    ),
                Material::Dielectric(m) => exists|coin: int|
                    0 <= coin <= ONE as int && scatter_view(r) == Some(
                        #[trigger] dielectric_scatter_spec(m, in_ray@, hit@, coin),
                    ),
            }),
    {
        match self {
            Material::Lambertian(m) => {
                let rv: Vec3 = random_in_unit_sphere();
                let out: (Vec3, Ray) = m.scatter_with(hit, rv);
                let res: Option<(Vec3, Ray)> = Some(out);
                proof {
                    assert(in_unit_ball(rv@) && scatter_view(res) == Some(
                        lambertian_scatter_spec(*m, hit@, rv@),
                    ));
                }
                res
            }
            Material::Metal(m) => {
                let rv: Vec3 = random_in_unit_sphere();
                let res: Option<(Vec3, Ray)> = m.scatter_with(in_ray, hit, rv);
                proof {
                    assert(in_unit_ball(rv@) && scatter_view(res) == metal_scatter_spec(
                        *m,
                        in_ray@,
                        hit@,
                        rv@,
                    ));
                }
                res
            }
            Material::Dielectric(m) => {
                let coin: i64 = rand_unit();
                let out: (Vec3, Ray) = m.scatter_with(in_ray, hit, coin);
                let res: Option<(Vec3, Ray)> = Some(out);
                proof {
                    assert(0 <= coin as int <= ONE as int && scatter_view(res) == Some(
                        dielectric_scatter_spec(*m, in_ray@, hit@, coin as int),
                    ));
                }
                res
            }
        }
    }
}

} // verus!
