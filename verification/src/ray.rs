//! Rays: an origin and a (not necessarily unit) direction.

use vstd::prelude::*;
use crate::vec3::{v_add, v_scale, Vec3, V3};

verus! {

/// The mathematical model of a ray.
pub ghost struct RayV {
    pub origin: V3,
    pub direction: V3,
}

#[derive(Clone, Copy, Debug)]
pub struct Ray {
    pub origin: Vec3,
    pub direction: Vec3,
}

impl View for Ray {
    type V = RayV;

    open spec fn view(&self) -> RayV {
        RayV { origin: self.origin@, direction: self.direction@ }
    }
}

/// The point `origin + t * direction` on the ray.
pub open spec fn ray_at(r: RayV, t: int) -> V3 {
    v_add(r.origin, v_scale(r.direction, t))
}

impl Ray {
    pub fn new(origin: Vec3, direction: Vec3) -> (r: Ray)
        ensures r@ == (RayV { origin: origin@, direction: direction@ }),
    {
        Ray { origin, direction }
    }

    pub fn point_at(&self, t: i64) -> (p: Vec3)
        ensures p@ == ray_at(self@, t as int),
    {
        self.origin.add(self.direction.scale(t))
    }
}

} // verus!
