//! The record of a ray/surface intersection.

use vstd::prelude::*;
use crate::material::Material;
use crate::vec3::{Vec3, V3};

verus! {

/// The mathematical model of a hit: parametric distance, hit point, surface
/// normal, and the material responsible for the surface there.
pub ghost struct HitV {
    pub t: int,
    pub p: V3,
    pub normal: V3,
    pub material: Material,
}

#[derive(Clone, Copy, Debug)]
pub struct HitRecord {
    pub t: i64,
    pub p: Vec3,
    pub normal: Vec3,
    pub material: Material,
}

impl View for HitRecord {
    type V = HitV;

    open spec fn view(&self) -> HitV {
        HitV { t: self.t as int, p: self.p@, normal: self.normal@, material: self.material }
    }
}

/// The view of an optional hit record.
pub open spec fn hit_view(r: Option<HitRecord>) -> Option<HitV> {
    match r {
        Some(h) => Some(h@),
        None => None,
    }
}

} // verus!
