//! Ray/surface intersection geometry: spheres, half-space boundary planes,
//! oriented cubes, and the aggregate list that keeps the nearest hit.
//!
//! Every `hit` takes a validity window `(t_min, t_max)`; a returned hit's `t`
//! lies strictly inside it.

use vstd::prelude::*;
use crate::fixed::{fadd, fdiv, fmul, fneg, fsub, fsqrt, sp_add, sp_div, sp_mul, sp_neg, sp_sqrt,
    sp_sub, ONE};
use crate::hit::{hit_view, HitRecord, HitV};
use crate::material::Material;
use crate::quat::{q_conjugate, q_rotate, Quat};
use crate::ray::{ray_at, Ray, RayV};
use crate::vec3::{v_add, v_divs, v_dot, v_normalize, v_sub, Vec3, V3};

verus! {

/// The raw fixed-point value of four (the quadratic discriminant factor).
pub const FOUR: i64 = 4_000_000;
/// The raw fixed-point value of two.
pub const TWO: i64 = 2_000_000;

// ---------------------------------------------------------------- sphere --

#[derive(Clone, Copy, Debug)]
pub struct Sphere {
    pub center: Vec3,
    pub radius: i64,
    pub material: Material,
}

/// The record for a sphere hit at distance `t`: hit point on the ray and
/// normal `(p - center) / radius`.
pub open spec fn sphere_rec(s: Sphere, ray: RayV, t: int) -> HitV {
    let p = ray_at(ray, t);
    HitV {
        t,
        p,
        normal: v_divs(v_sub(p, s.center@), s.radius as int),
        material: s.material,
    }
}

/// The quadratic discriminant `b^2 - 4ac` of the sphere intersection, with
/// `a = d.d`, `b = 2 oc.d`, `c = oc.oc - r^2`.
pub open spec fn sphere_discriminant(s: Sphere, ray: RayV) -> int {
    let oc = v_sub(ray.origin, s.center@);
    let a = v_dot(ray.direction, ray.direction);
    let hb = v_dot(oc, ray.direction);
    let b = sp_add(hb, hb);
    let c = sp_sub(v_dot(oc, oc), sp_mul(s.radius as int, s.radius as int));
    sp_sub(sp_mul(b, b), sp_mul(sp_mul(FOUR as int, a), c))
}

/// Sphere intersection: the quadratic `a t^2 + b t + c` with
/// `a = d.d`, `b = 2 oc.d`, `c = oc.oc - r^2`; only a positive discriminant
/// counts (tangent rays are excluded), the near root is tried first, and a
/// root must lie strictly inside the window.
pub open spec fn sphere_hit_spec(s: Sphere, ray: RayV, t_min: int, t_max: int) -> Option<HitV> {
    let oc = v_sub(ray.origin, s.center@);
    let a = v_dot(ray.direction, ray.direction);
    let hb = v_dot(oc, ray.direction);
    let b = sp_add(hb, hb);
    let disc = sphere_discriminant(s, ray);
    if disc > 0 {
        let sq = sp_sqrt(disc);
        let denom = sp_add(a, a);
        let t1 = sp_div(sp_sub(sp_neg(b), sq), denom);
        if t_min < t1 && t1 < t_max {
            Some(sphere_rec(s, ray, t1))
        } else {
            let t2 = sp_div(sp_add(sp_neg(b), sq), denom);
            if t_min < t2 && t2 < t_max {
                Some(sphere_rec(s, ray, t2))
            } else {
                None
            }
        }
    } else {
        None
    }
}

impl Sphere {
    pub fn new(center: Vec3, radius: i64, material: Material) -> (r: Sphere)
        ensures
            r.center == center,
            r.radius == radius,
            r.material == material,
    {
        Sphere { center, radius, material }
    }

    fn make_rec(&self, ray: &Ray, t: i64) -> (r: HitRecord)
        ensures r@ == sphere_rec(*self, ray@, t as int),
    {
        let p: Vec3 = ray.point_at(t);
        HitRecord {
            t,
            p,
            normal: p.sub(self.center).divs(self.radius),
            material: self.material,
        }
    }

    pub fn hit(&self, ray: &Ray, t_min: i64, t_max: i64) -> (r: Option<HitRecord>)
        ensures hit_view(r) == sphere_hit_spec(*self, ray@, t_min as int, t_max as int),
    {
        let oc: Vec3 = ray.origin.sub(self.center);
        let a: i64 = ray.direction.dot(ray.direction);
        let hb: i64 = oc.dot(ray.direction);
        let b: i64 = fadd(hb, hb);
        let c: i64 = fsub(oc.dot(oc), fmul(self.radius, self.radius));
        let disc: i64 = fsub(fmul(b, b), fmul(fmul(FOUR, a), c));
        if disc > 0 {
            let sq: i64 = fsqrt(disc);
            let denom: i64 = fadd(a, a);
            let t1: i64 = fdiv(fsub(fneg(b), sq), denom);
            if t_min < t1 && t1 < t_max {
                return Some(self.make_rec(ray, t1));
            }
            let t2: i64 = fdiv(fadd(fneg(b), sq), denom);
            if t_min < t2 && t2 < t_max {
                return Some(self.make_rec(ray, t2));
            }
            None
        } else {
            None
        }
    }
}

// ----------------------------------------------------------------- plane --

/// The mathematical model of a plane: a point on it and its normal.
pub ghost struct PlaneV {
    pub point: V3,
    pub normal: V3,
    pub material: Material,
}

#[derive(Clone, Copy, Debug)]
pub struct Plane {
    pub point: Vec3,
    pub normal: Vec3,
    pub material: Material,
}

impl View for Plane {
    type V = PlaneV;

    open spec fn view(&self) -> PlaneV {
        PlaneV { point: self.point@, normal: self.normal@, material: self.material }
    }
}

/// Plane intersection: `t = n.(point - origin) / n.d`; a ray parallel to the
/// plane (zero denominator, tested exactly) misses, and `t` must lie strictly
/// inside the window.
pub open spec fn plane_hit_spec(pl: PlaneV, ray: RayV, t_min: int, t_max: int) -> Option<HitV> {
    let denom = v_dot(pl.normal, ray.direction);
    if denom == 0 {
        None
    } else {
        let numer = v_dot(pl.normal, v_sub(pl.point, ray.origin));
        let t = sp_div(numer, denom);
        if t <= t_min || t >= t_max {
            None
        } else {
            Some(HitV { t, p: ray_at(ray, t), normal: pl.normal, material: pl.material })
        }
    }
}

impl Plane {
    pub fn new(point: Vec3, normal: Vec3, material: Material) -> (r: Plane)
        ensures
            r.point == point,
            r.normal == normal,
            r.material == material,
    {
        Plane { point, normal, material }
    }

    pub fn hit(&self, ray: &Ray, t_min: i64, t_max: i64) -> (r: Option<HitRecord>)
        ensures hit_view(r) == plane_hit_spec(self@, ray@, t_min as int, t_max as int),
    {
        let denom: i64 = self.normal.dot(ray.direction);
        if denom == 0 {
            return None;
        }
        let numer: i64 = self.normal.dot(self.point.sub(ray.origin));
        let t: i64 = fdiv(numer, denom);
        if t <= t_min || t >= t_max {
            return None;
        }
        Some(HitRecord { t, p: ray.point_at(t), normal: self.normal, material: self.material })
    }
}

// ------------------------------------------------------------------ cube --

#[derive(Clone, Copy, Debug)]
pub struct Cube {
    pub center: Vec3,
    pub size: i64,
    pub half: i64,
    pub rotation: Quat,
    pub inverse_rotation: Quat,
    pub material: Material,
}

/// The point each of the six local face planes passes through.
pub open spec fn cube_face_point(half: int, i: int) -> V3 {
    if i == 0 { V3 { x: 0, y: half, z: 0 } }
    else if i == 1 { V3 { x: 0, y: sp_neg(half), z: 0 } }
    else if i == 2 { V3 { x: 0, y: 0, z: half } }
    else if i == 3 { V3 { x: 0, y: 0, z: sp_neg(half) } }
    else if i == 4 { V3 { x: sp_neg(half), y: 0, z: 0 } }
    else { V3 { x: half, y: 0, z: 0 } }
}

/// The normal of each of the six local face planes.
pub open spec fn cube_face_normal(i: int) -> V3 {
    if i == 0 { V3 { x: 0, y: ONE as int, z: 0 } }
    else if i == 1 { V3 { x: 0, y: -(ONE as int), z: 0 } }
    else if i == 2 { V3 { x: 0, y: 0, z: ONE as int } }
    else if i == 3 { V3 { x: 0, y: 0, z: -(ONE as int) } }
    else if i == 4 { V3 { x: -(ONE as int), y: 0, z: 0 } }
    else { V3 { x: ONE as int, y: 0, z: 0 } }
}

/// The local axis a face's own normal lies on; that axis is skipped by the
/// face's bounds check.
pub open spec fn cube_ignored_axis(i: int) -> int {
    if i == 0 || i == 1 { 1 } else if i == 2 || i == 3 { 2 } else { 0 }
}

/// A local-frame hit point lies within the half extents on the two axes the
/// face checks.
pub open spec fn cube_bounds_ok(half: int, i: int, p: V3) -> bool {
    let ig = cube_ignored_axis(i);
    let nh = sp_neg(half);
    (ig == 0 || (nh <= p.x && p.x <= half)) && (ig == 1 || (nh <= p.y && p.y <= half)) && (
    ig == 2 || (nh <= p.z && p.z <= half))
}

/// The face plane of index `i`, as a model value.
pub open spec fn cube_face(c: Cube, i: int) -> PlaneV {
    PlaneV {
        point: cube_face_point(c.half as int, i),
        normal: cube_face_normal(i),
        material: c.material,
    }
}

/// The incoming ray carried into the cube's local (centered, unrotated)
/// frame by the inverse rotation.
pub open spec fn cube_local_ray(c: Cube, ray: RayV) -> RayV {
    RayV {
        origin: q_rotate(c.inverse_rotation@, v_sub(ray.origin, c.center@)),
        direction: q_rotate(c.inverse_rotation@, ray.direction),
    }
}

/// The running-nearest sweep over the first `n` face planes: each face is
/// queried with the window shrunk to the closest accepted hit so far, and a
/// face hit counts only if it passes the face's bounds check.
pub open spec fn cube_local_hit_prefix(
    c: Cube,
    lray: RayV,
    t_min: int,
    t_max: int,
    n: nat,
) -> Option<HitV>
    decreases n,
{
    if n == 0 {
        None
    } else {
        let prev = cube_local_hit_prefix(c, lray, t_min, t_max, (n - 1) as nat);
        let closest = match prev {
            Some(h) => h.t,
            None => t_max,
        };
        match plane_hit_spec(cube_face(c, n - 1), lray, t_min, closest) {
            Some(h) => if cube_bounds_ok(c.half as int, n - 1, h.p) {
                Some(h)
            } else {
                prev
            },
            None => prev,
        }
    }
}

/// A local hit carried back to world space: rotate and translate the point,
/// rotate and re-normalize the normal.
pub open spec fn cube_to_world(c: Cube, h: HitV) -> HitV {
    HitV {
        t: h.t,
        p: v_add(q_rotate(c.rotation@, h.p), c.center@),
        normal: v_normalize(q_rotate(c.rotation@, h.normal)),
        material: h.material,
    }
}

/// Cube intersection: test the six bounded local faces against the
/// local-frame ray, keep the closest valid face hit, and carry it back to
/// world space.
pub open spec fn cube_hit_spec(c: Cube, ray: RayV, t_min: int, t_max: int) -> Option<HitV> {
    match cube_local_hit_prefix(c, cube_local_ray(c, ray), t_min, t_max, 6) {
        Some(h) => Some(cube_to_world(c, h)),
        None => None,
    }
}

impl Cube {
    /// An oriented box: stores the half extent and the inverse (conjugate)
    /// rotation alongside its parameters.
    pub fn new(center: Vec3, size: i64, rotation: Quat, material: Material) -> (r: Cube)
        ensures
            r.center == center,
            r.size == size,
            r.half as int == sp_div(size as int, TWO as int),
            r.rotation == rotation,
            r.inverse_rotation@ == q_conjugate(rotation@),
            r.material == material,
    {
        Cube {
            center,
            size,
            half: fdiv(size, TWO),
            rotation,
            inverse_rotation: rotation.conjugate(),
            material,
        }
    }

    fn face_plane(&self, i: usize) -> (r: Plane)
        requires i < 6,
        ensures r@ == cube_face(*self, i as int),
    {
        let h: i64 = self.half;
        if i == 0 {
            Plane::new(Vec3::new(0, h, 0), Vec3::new(0, ONE, 0), self.material)
        } else if i == 1 {
            Plane::new(Vec3::new(0, fneg(h), 0), Vec3::new(0, -ONE, 0), self.material)
        } else if i == 2 {
            Plane::new(Vec3::new(0, 0, h), Vec3::new(0, 0, ONE), self.material)
        } else if i == 3 {
            Plane::new(Vec3::new(0, 0, fneg(h)), Vec3::new(0, 0, -ONE), self.material)
        } else if i == 4 {
            Plane::new(Vec3::new(fneg(h), 0, 0), Vec3::new(-ONE, 0, 0), self.material)
        } else {
            Plane::new(Vec3::new(h, 0, 0), Vec3::new(ONE, 0, 0), self.material)
        }
    }

    fn bounds_ok(&self, i: usize, p: Vec3) -> (r: bool)
        requires i < 6,
        ensures r == cube_bounds_ok(self.half as int, i as int, p@),
    {
        let h: i64 = self.half;
        let nh: i64 = fneg(h);
        let ig: usize = if i < 2 { 1 } else if i < 4 { 2 } else { 0 };
        let ok_x: bool = ig == 0 || (nh <= p.x && p.x <= h);
        let ok_y: bool = ig == 1 || (nh <= p.y && p.y <= h);
        let ok_z: bool = ig == 2 || (nh <= p.z && p.z <= h);
        ok_x && ok_y && ok_z
    }

    pub fn hit(&self, ray: &Ray, t_min: i64, t_max: i64) -> (r: Option<HitRecord>)
        ensures hit_view(r) == cube_hit_spec(*self, ray@, t_min as int, t_max as int),
    {
        let lray: Ray = Ray::new(
            self.inverse_rotation.rotate(ray.origin.sub(self.center)),
            self.inverse_rotation.rotate(ray.direction),
        );
        let ghost lrayv: RayV = cube_local_ray(*self, ray@);
        assert(lray@ == lrayv);

        let mut rec: Option<HitRecord> = None;
        let mut closest: i64 = t_max;
        let mut i: usize = 0;
        while i < 6
            invariant
                i <= 6,
                hit_view(rec) == cube_local_hit_prefix(
                    *self,
                    lrayv,
                    t_min as int,
                    t_max as int,
                    i as nat,
                ),
                lray@ == lrayv,
                closest as int == (match hit_view(rec) {
                    Some(h) => h.t,
                    None => t_max as int,
                }),
            decreases 6 - i,
        {
            let face: Plane = self.face_plane(i);
            let tmp: Option<HitRecord> = face.hit(&lray, t_min, closest);
            match tmp {
                Some(h) => {
                    if self.bounds_ok(i, h.p) {
                        closest = h.t;
                        rec = Some(h);
                    }
                }
                None => {}
            }
            i = i + 1;
        }

        match rec {
            Some(h) => Some(HitRecord {
                t: h.t,
                p: self.rotation.rotate(h.p).add(self.center),
                normal: self.rotation.rotate(h.normal).normalize(),
                material: h.material,
            }),
            None => None,
        }
    }
}

// ------------------------------------------------------- hitable / lists --

/// The closed set of surfaces, dispatched by pattern matching.
#[derive(Clone, Copy, Debug)]
pub enum Hitable {
    Sphere(Sphere),
    Plane(Plane),
    Cube(Cube),
}

/// Intersection of a single surface of any kind.
pub open spec fn hitable_hit_spec(s: Hitable, ray: RayV, t_min: int, t_max: int) -> Option<HitV> {
    match s {
        Hitable::Sphere(sp) => sphere_hit_spec(sp, ray, t_min, t_max),
        Hitable::Plane(pl) => plane_hit_spec(pl@, ray, t_min, t_max),
        Hitable::Cube(cu) => cube_hit_spec(cu, ray, t_min, t_max),
    }
}

impl Hitable {
    pub fn hit(&self, ray: &Ray, t_min: i64, t_max: i64) -> (r: Option<HitRecord>)
        ensures hit_view(r) == hitable_hit_spec(*self, ray@, t_min as int, t_max as int),
    {
        match self {
            Hitable::Sphere(sp) => sp.hit(ray, t_min, t_max),
            Hitable::Plane(pl) => pl.hit(ray, t_min, t_max),
            Hitable::Cube(cu) => cu.hit(ray, t_min, t_max),
        }
    }
}

/// The running-nearest sweep over the first `n` surfaces: each surface is
/// queried with the window shrunk to the closest hit found so far.
pub open spec fn list_hit_prefix(
    items: Seq<Hitable>,
    ray: RayV,
    t_min: int,
    t_max: int,
    n: nat,
) -> Option<HitV>
    decreases n,
{
    if n == 0 {
        None
    } else {
        let prev = list_hit_prefix(items, ray, t_min, t_max, (n - 1) as nat);
        let closest = match prev {
            Some(h) => h.t,
            None => t_max,
        };
        match hitable_hit_spec(items[n - 1], ray, t_min, closest) {
            Some(h) => Some(h),
            None => prev,
        }
    }
}

/// Aggregate intersection: the nearest valid hit over all surfaces.
#[verifier::opaque]
pub open spec fn list_hit_spec(items: Seq<Hitable>, ray: RayV, t_min: int, t_max: int) -> Option<
    HitV,
> {
    list_hit_prefix(items, ray, t_min, t_max, items.len())
}

pub struct HitablesList {
    pub hitables: Vec<Hitable>,
}

impl HitablesList {
    pub fn new(hitables: Vec<Hitable>) -> (r: HitablesList)
        ensures r.hitables@ == hitables@,
    {
        HitablesList { hitables }
    }

    #[verifier::rlimit(50)]
    pub fn hit(&self, ray: &Ray, t_min: i64, t_max: i64) -> (r: Option<HitRecord>)
        ensures
            hit_view(r) == list_hit_spec(self.hitables@, ray@, t_min as int, t_max as int),
    {
        proof {
            reveal(list_hit_spec);
        }
        let mut rec: Option<HitRecord> = None;
        let mut closest: i64 = t_max;
        let mut i: usize = 0;
        while i < self.hitables.len()
            invariant
                i <= self.hitables@.len(),
                hit_view(rec) == list_hit_prefix(
                    self.hitables@,
                    ray@,
                    t_min as int,
                    t_max as int,
                    i as nat,
                ),
                closest as int == (match hit_view(rec) {
                    Some(h) => h.t,
                    None => t_max as int,
                }),
            decreases self.hitables@.len() - i,
        {
            let tmp: Option<HitRecord> = self.hitables[i].hit(ray, t_min, closest);
            match tmp {
                Some(h) => {
                    closest = h.t;
                    rec = Some(h);
                }
                None => {}
            }
            i = i + 1;
        }
        rec
    }
}

} // verus!
