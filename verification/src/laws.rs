//! The library's stated laws, proved once and for all inputs.
//!
//! The central one is the aggregate nearest-hit law: the scene aggregate
//! returns the hit with the smallest valid distance among its surfaces,
//! exactly as a brute-force minimum would. Around it stand the window
//! restriction lemmas it rests on, the sphere miss law, the cube local-frame
//! round trip, the Schlick reflectance laws, and the zero-fuzz mirror law.

use vstd::prelude::*;
use crate::fixed::{
    abs_int, lemma_sp_div_mono_num, lemma_sp_mul_mono, lemma_sp_mul_self_nonneg,
    lemma_sp_mul_unit_range, lemma_sp_sqrt_nonneg, lemma_tdiv_mono, sp_add, sp_div, sp_mul,
    sp_neg, sp_sqrt, sp_sub, ONE, RAW_MAX, SCALE,
};
use crate::hit::HitV;
use crate::material::{
    diel_eta, diel_outward, dielectric_scatter_spec, metal_scatter_spec, sp_pow5, sp_schlick,
    sp_schlick_r0, Dielectric, Metal,
};
use crate::quat::{lemma_identity_rotation, q_conjugate, q_identity};
use crate::ray::RayV;
use crate::surface::{
    cube_bounds_ok, cube_face, cube_hit_spec, cube_local_hit_prefix, cube_local_ray,
    hitable_hit_spec, list_hit_prefix, list_hit_spec, plane_hit_spec, sphere_discriminant,
    sphere_hit_spec, Cube, Hitable, PlaneV, Sphere,
};
use crate::vec3::{v_add, v_dot, v_normalize, v_reflect, v_refract, v_sub, v_zero, V3};

verus! {

/// A hit kept only when its distance falls below the narrower bound `w`.
pub open spec fn restrict_hit(o: Option<HitV>, w: int) -> Option<HitV> {
    match o {
        Some(h) => if h.t < w { Some(h) } else { None },
        None => None,
    }
}

/// A hit (if any) lies strictly inside the window.
pub open spec fn hit_in_window(o: Option<HitV>, t_min: int, t_max: int) -> bool {
    match o {
        Some(h) => t_min < h.t && h.t < t_max,
        None => true,
    }
}

// ------------------------------------------------ validity of the window --

pub proof fn lemma_sphere_hit_in_window(s: Sphere, ray: RayV, t_min: int, t_max: int)
    ensures hit_in_window(sphere_hit_spec(s, ray, t_min, t_max), t_min, t_max),
{
}

pub proof fn lemma_plane_hit_in_window(pl: PlaneV, ray: RayV, t_min: int, t_max: int)
    ensures hit_in_window(plane_hit_spec(pl, ray, t_min, t_max), t_min, t_max),
{
}

pub proof fn lemma_cube_prefix_in_window(c: Cube, lray: RayV, t_min: int, t_max: int, n: nat)
    ensures hit_in_window(cube_local_hit_prefix(c, lray, t_min, t_max, n), t_min, t_max),
    decreases n,
{
    if n > 0 {
        lemma_cube_prefix_in_window(c, lray, t_min, t_max, (n - 1) as nat);
    }
}

pub proof fn lemma_hitable_hit_in_window(s: Hitable, ray: RayV, t_min: int, t_max: int)
    ensures hit_in_window(hitable_hit_spec(s, ray, t_min, t_max), t_min, t_max),
{
    match s {
        Hitable::Sphere(_) => {}
        Hitable::Plane(_) => {}
        Hitable::Cube(c) => {
            lemma_cube_prefix_in_window(c, cube_local_ray(c, ray), t_min, t_max, 6);
        }
    }
}

// ------------------------------------------------------ window shrinking --

/// Shrinking the far bound of a plane query keeps exactly the hits below it.
pub proof fn lemma_plane_restrict(pl: PlaneV, ray: RayV, t_min: int, t_max: int, w: int)
    requires t_min < w <= t_max,
    ensures
        plane_hit_spec(pl, ray, t_min, w) == restrict_hit(
            plane_hit_spec(pl, ray, t_min, t_max),
            w,
        ),
{
}

/// Shrinking the far bound of a sphere query keeps exactly the hits below it.
pub proof fn lemma_sphere_restrict(s: Sphere, ray: RayV, t_min: int, t_max: int, w: int)
    requires t_min < w <= t_max,
    ensures
        sphere_hit_spec(s, ray, t_min, w) == restrict_hit(
            sphere_hit_spec(s, ray, t_min, t_max),
            w,
        ),
{
    let oc = v_sub(ray.origin, s.center@);
    let a = v_dot(ray.direction, ray.direction);
    let hb = v_dot(oc, ray.direction);
    let b = sp_add(hb, hb);
    let disc = sphere_discriminant(s, ray);
    if disc > 0 {
        lemma_sp_mul_self_nonneg(ray.direction.x);
        lemma_sp_mul_self_nonneg(ray.direction.y);
        lemma_sp_mul_self_nonneg(ray.direction.z);
        assert(a >= 0);
        lemma_sp_sqrt_nonneg(disc);
        let sq = sp_sqrt(disc);
        let nb = sp_neg(b);
        let denom = sp_add(a, a);
        lemma_sp_div_mono_num(sp_sub(nb, sq), sp_add(nb, sq), denom);
    }
}

/// Shrinking the far bound of a cube's local face sweep keeps exactly the
/// hits below it.
pub proof fn lemma_cube_prefix_restrict(
    c: Cube,
    lray: RayV,
    t_min: int,
    t_max: int,
    w: int,
    n: nat,
)
    requires t_min < w <= t_max,
    ensures
        cube_local_hit_prefix(c, lray, t_min, w, n) == restrict_hit(
            cube_local_hit_prefix(c, lray, t_min, t_max, n),
            w,
        ),
    decreases n,
{
    if n > 0 {
        lemma_cube_prefix_restrict(c, lray, t_min, t_max, w, (n - 1) as nat);
        lemma_cube_prefix_in_window(c, lray, t_min, t_max, (n - 1) as nat);
        lemma_cube_prefix_in_window(c, lray, t_min, w, (n - 1) as nat);
        let prev_full = cube_local_hit_prefix(c, lray, t_min, t_max, (n - 1) as nat);
        let closest_full: int = match prev_full {
            Some(h) => h.t,
            None => t_max,
        };
        let prev_w = cube_local_hit_prefix(c, lray, t_min, w, (n - 1) as nat);
        let closest_w: int = match prev_w {
            Some(h) => h.t,
            None => w,
        };
        assert(t_min < closest_w && closest_w <= closest_full);
        lemma_plane_restrict(cube_face(c, n as int - 1), lray, t_min, closest_full, closest_w);
        lemma_plane_hit_in_window(cube_face(c, n as int - 1), lray, t_min, closest_full);
    }
}

/// Shrinking the far bound of a cube query keeps exactly the hits below it.
pub proof fn lemma_cube_restrict(c: Cube, ray: RayV, t_min: int, t_max: int, w: int)
    requires t_min < w <= t_max,
    ensures
        cube_hit_spec(c, ray, t_min, w) == restrict_hit(cube_hit_spec(c, ray, t_min, t_max), w),
{
    lemma_cube_prefix_restrict(c, cube_local_ray(c, ray), t_min, t_max, w, 6);
}

/// Shrinking the far bound of any surface query keeps exactly the hits
/// below it.
pub proof fn lemma_hitable_restrict(s: Hitable, ray: RayV, t_min: int, t_max: int, w: int)
    requires t_min < w <= t_max,
    ensures
        hitable_hit_spec(s, ray, t_min, w) == restrict_hit(
            hitable_hit_spec(s, ray, t_min, t_max),
            w,
        ),
{
    match s {
        Hitable::Sphere(sp) => lemma_sphere_restrict(sp, ray, t_min, t_max, w),
        Hitable::Plane(pl) => lemma_plane_restrict(pl@, ray, t_min, t_max, w),
        Hitable::Cube(cu) => lemma_cube_restrict(cu, ray, t_min, t_max, w),
    }
}

// -------------------------------------------- the aggregate nearest law --

/// The brute-force minimum over the first `n` surfaces' full-window hits;
/// on equal distances the earlier surface wins.
pub open spec fn brute_min(
    items: Seq<Hitable>,
    ray: RayV,
    t_min: int,
    t_max: int,
    n: nat,
) -> Option<HitV>
    decreases n,
{
    if n == 0 {
        None
    } else {
        let p = brute_min(items, ray, t_min, t_max, (n - 1) as nat);
        match hitable_hit_spec(items[n - 1], ray, t_min, t_max) {
            Some(h) => match p {
                Some(ph) => if h.t < ph.t { Some(h) } else { p },
                None => Some(h),
            },
            None => p,
        }
    }
}

/// The aggregate's running-nearest sweep computes the brute-force minimum.
pub proof fn lemma_list_prefix_is_brute(
    items: Seq<Hitable>,
    ray: RayV,
    t_min: int,
    t_max: int,
    n: nat,
)
    requires
        t_min < t_max,
        n <= items.len(),
    ensures
        list_hit_prefix(items, ray, t_min, t_max, n) == brute_min(items, ray, t_min, t_max, n),
        hit_in_window(list_hit_prefix(items, ray, t_min, t_max, n), t_min, t_max),
    decreases n,
{
    if n > 0 {
        lemma_list_prefix_is_brute(items, ray, t_min, t_max, (n - 1) as nat);
        let p = list_hit_prefix(items, ray, t_min, t_max, (n - 1) as nat);
        let closest: int = match p {
            Some(h) => h.t,
            None => t_max,
        };
        lemma_hitable_restrict(items[n - 1], ray, t_min, t_max, closest);
        lemma_hitable_hit_in_window(items[n - 1], ray, t_min, t_max);
    }
}

#[verifier::rlimit(100)]
proof fn lemma_brute_le(items: Seq<Hitable>, ray: RayV, t_min: int, t_max: int, n: nat, i: int)
    requires
        0 <= i < n <= items.len(),
        hitable_hit_spec(items[i], ray, t_min, t_max) is Some,
    ensures
        brute_min(items, ray, t_min, t_max, n) is Some,
        brute_min(items, ray, t_min, t_max, n)->Some_0.t <= hitable_hit_spec(
            items[i],
            ray,
            t_min,
            t_max,
        )->Some_0.t,
    decreases n,
{
    if i < n - 1 {
        lemma_brute_le(items, ray, t_min, t_max, (n - 1) as nat, i);
    }
}

proof fn lemma_brute_found(items: Seq<Hitable>, ray: RayV, t_min: int, t_max: int, n: nat)
    requires
        brute_min(items, ray, t_min, t_max, n) is Some,
        n <= items.len(),
    ensures
        exists|i: int|
            0 <= i < n && hitable_hit_spec(items[i], ray, t_min, t_max) == Some(
                brute_min(items, ray, t_min, t_max, n)->Some_0,
            ),
    decreases n,
{
    if n > 0 {
        let p = brute_min(items, ray, t_min, t_max, (n - 1) as nat);
        let cur = brute_min(items, ray, t_min, t_max, n);
        if cur == p {
            lemma_brute_found(items, ray, t_min, t_max, (n - 1) as nat);
            let j = choose|i: int|
                0 <= i < n - 1 && hitable_hit_spec(items[i], ray, t_min, t_max) == Some(
                    p->Some_0,
                );
            assert(hitable_hit_spec(items[j], ray, t_min, t_max) == Some(cur->Some_0));
        } else {
            assert(hitable_hit_spec(items[n - 1], ray, t_min, t_max) == Some(cur->Some_0));
        }
    }
}

/// Scene aggregate nearest-hit law, lower bound: whenever any surface of the
/// list has a valid hit, the aggregate returns a hit at most that far away.
pub proof fn lemma_aggregate_nearest(
    items: Seq<Hitable>,
    ray: RayV,
    t_min: int,
    t_max: int,
    i: int,
)
    requires
        t_min < t_max,
        0 <= i < items.len(),
        hitable_hit_spec(items[i], ray, t_min, t_max) is Some,
    ensures
        list_hit_spec(items, ray, t_min, t_max) is Some,
        list_hit_spec(items, ray, t_min, t_max)->Some_0.t <= hitable_hit_spec(
            items[i],
            ray,
            t_min,
            t_max,
        )->Some_0.t,
{
    reveal(list_hit_spec);
    lemma_list_prefix_is_brute(items, ray, t_min, t_max, items.len());
    lemma_brute_le(items, ray, t_min, t_max, items.len(), i);
}

/// Scene aggregate nearest-hit law, attainment: what the aggregate returns
/// is one of its surfaces' own full-window hits, and it lies strictly inside
/// the window.
pub proof fn lemma_aggregate_hit_is_attained(
    items: Seq<Hitable>,
    ray: RayV,
    t_min: int,
    t_max: int,
)
    requires
        t_min < t_max,
        list_hit_spec(items, ray, t_min, t_max) is Some,
    ensures
        exists|i: int|
            0 <= i < items.len() && hitable_hit_spec(items[i], ray, t_min, t_max) == Some(
                list_hit_spec(items, ray, t_min, t_max)->Some_0,
            ),
        t_min < list_hit_spec(items, ray, t_min, t_max)->Some_0.t < t_max,
{
    reveal(list_hit_spec);
    lemma_list_prefix_is_brute(items, ray, t_min, t_max, items.len());
    lemma_brute_found(items, ray, t_min, t_max, items.len());
}

// -------------------------------------------------------- sphere misses --

/// A ray whose sphere discriminant is not positive misses the sphere for
/// every validity window.
pub proof fn lemma_sphere_miss_all_windows(s: Sphere, ray: RayV)
    requires sphere_discriminant(s, ray) <= 0,
    ensures
        forall|t_min: int, t_max: int| #[trigger] sphere_hit_spec(s, ray, t_min, t_max) is None,
{
}

// ---------------------------------------------------- cube local frames --

/// Any hit the local face sweep accepts passed some face's bounds check,
/// and its local point's components are within the representable range.
pub proof fn lemma_cube_prefix_bounds(c: Cube, lray: RayV, t_min: int, t_max: int, n: nat)
    ensures
        cube_local_hit_prefix(c, lray, t_min, t_max, n) is Some ==> {
            let h = cube_local_hit_prefix(c, lray, t_min, t_max, n)->Some_0;
            &&& exists|i: int| 0 <= i < n && #[trigger] cube_bounds_ok(c.half as int, i, h.p)
            &&& abs_int(h.p.x) <= RAW_MAX as int
            &&& abs_int(h.p.y) <= RAW_MAX as int
            &&& abs_int(h.p.z) <= RAW_MAX as int
        },
    decreases n,
{
    if n > 0 {
        lemma_cube_prefix_bounds(c, lray, t_min, t_max, (n - 1) as nat);
    }
}

/// Cube round-trip law for an axis-aligned (identity-rotation) cube: the
/// world-space hit point, carried back into the local frame, lands within
/// the half-extent bounds the face test used. The saturation margin keeps
/// the translation between frames exact.
pub proof fn lemma_cube_identity_roundtrip(c: Cube, ray: RayV, t_min: int, t_max: int)
    requires
        c.rotation@ == q_identity(),
        c.inverse_rotation@ == q_conjugate(c.rotation@),
        cube_hit_spec(c, ray, t_min, t_max) is Some,
        abs_int(
            cube_local_hit_prefix(c, cube_local_ray(c, ray), t_min, t_max, 6)->Some_0.p.x
                + c.center@.x,
        ) <= RAW_MAX as int,
        abs_int(
            cube_local_hit_prefix(c, cube_local_ray(c, ray), t_min, t_max, 6)->Some_0.p.y
                + c.center@.y,
        ) <= RAW_MAX as int,
        abs_int(
            cube_local_hit_prefix(c, cube_local_ray(c, ray), t_min, t_max, 6)->Some_0.p.z
                + c.center@.z,
        ) <= RAW_MAX as int,
    ensures
        exists|i: int|
            0 <= i < 6 && #[trigger] cube_bounds_ok(
                c.half as int,
                i,
                v_sub(cube_hit_spec(c, ray, t_min, t_max)->Some_0.p, c.center@),
            ),
{
    let lray = cube_local_ray(c, ray);
    let lh = cube_local_hit_prefix(c, lray, t_min, t_max, 6)->Some_0;
    lemma_cube_prefix_bounds(c, lray, t_min, t_max, 6);
    lemma_identity_rotation(lh.p);
    assert(cube_hit_spec(c, ray, t_min, t_max)->Some_0.p == v_add(lh.p, c.center@));
    assert(v_sub(v_add(lh.p, c.center@), c.center@) == lh.p);
    let i = choose|i: int| 0 <= i < 6 && #[trigger] cube_bounds_ok(c.half as int, i, lh.p);
    assert(cube_bounds_ok(
        c.half as int,
        i,
        v_sub(cube_hit_spec(c, ray, t_min, t_max)->Some_0.p, c.center@),
    ));
}

// ------------------------------------------------- Schlick reflectance --

/// At normal incidence (cosine exactly one) Schlick's reflectance equals
/// the base reflectance `r0` exactly.
pub proof fn lemma_schlick_normal_incidence(refraction_index: int)
    ensures sp_schlick(ONE as int, refraction_index) == sp_schlick_r0(refraction_index),
{
    let r0 = sp_schlick_r0(refraction_index);
    vstd::arithmetic::div_mod::lemma_div_of0(SCALE as int);
    assert(sp_sub(ONE as int, ONE as int) == 0);
    assert(sp_mul(0, 0) == 0);
    assert(sp_pow5(0) == 0);
    assert(sp_mul(sp_sub(ONE as int, r0), 0) == 0);
    assert(-(RAW_MAX as int) <= r0 <= RAW_MAX as int);
    assert(sp_add(r0, 0) == r0);
}

/// The base reflectance of a medium denser than one lies in `[0, ONE]`.
pub proof fn lemma_schlick_r0_range(refraction_index: int)
    requires (ONE as int) < refraction_index,
    ensures 0 <= sp_schlick_r0(refraction_index) <= ONE as int,
{
    let nu = sp_sub(ONE as int, refraction_index);
    let de = sp_add(ONE as int, refraction_index);
    let q = sp_div(nu, de);
    assert(0 < de && nu < 0 && -nu <= de);
    assert(abs_int(nu * (SCALE as int)) == (-nu) * (SCALE as int)) by (nonlinear_arith)
        requires nu < 0;
    assert((-nu) * (SCALE as int) <= de * (SCALE as int)) by (nonlinear_arith)
        requires 0 < -nu <= de, SCALE as int == 1_000_000;
    vstd::arithmetic::div_mod::lemma_multiply_divide_le(
        (-nu) * (SCALE as int),
        de,
        SCALE as int,
    );
    assert(0 <= -q <= SCALE as int);
    lemma_sp_mul_self_nonneg(q);
    assert(q * q <= (ONE as int) * (ONE as int)) by (nonlinear_arith)
        requires -(ONE as int) <= q <= 0;
    lemma_tdiv_mono(q * q, (ONE as int) * (ONE as int), SCALE as int);
    vstd::arithmetic::div_mod::lemma_div_multiples_vanish(ONE as int, SCALE as int);
    assert((ONE as int) * (ONE as int) == (ONE as int) * (SCALE as int));
}

/// At grazing incidence (cosine exactly zero) on a medium denser than one,
/// Schlick's reflectance is exactly one.
pub proof fn lemma_schlick_grazing(refraction_index: int)
    requires (ONE as int) < refraction_index,
    ensures sp_schlick(0, refraction_index) == ONE as int,
{
    lemma_schlick_r0_range(refraction_index);
    let r0 = sp_schlick_r0(refraction_index);
    lemma_sp_mul_unit_range(ONE as int, ONE as int);
    assert(sp_mul(ONE as int, ONE as int) == ONE as int);
    assert(sp_pow5(sp_sub(ONE as int, 0)) == ONE as int);
    lemma_sp_mul_unit_range(sp_sub(ONE as int, r0), ONE as int);
}

/// Schlick's reflectance does not decrease as the incidence moves from
/// normal (cosine one) toward grazing (cosine zero), for a medium denser
/// than one.
pub proof fn lemma_schlick_monotone(cos_hi: int, cos_lo: int, refraction_index: int)
    requires
        0 <= cos_lo <= cos_hi <= ONE as int,
        (ONE as int) < refraction_index,
    ensures sp_schlick(cos_hi, refraction_index) <= sp_schlick(cos_lo, refraction_index),
{
    lemma_schlick_r0_range(refraction_index);
    let r0 = sp_schlick_r0(refraction_index);
    let x_hi = sp_sub(ONE as int, cos_lo);
    let x_lo = sp_sub(ONE as int, cos_hi);
    assert(0 <= x_lo <= x_hi <= ONE as int);
    lemma_sp_pow5_mono(x_lo, x_hi);
    lemma_sp_mul_mono(sp_sub(ONE as int, r0), sp_pow5(x_lo), sp_pow5(x_hi));
}

/// Bounded monotonicity of the rounded fifth power on `[0, ONE]`.
proof fn lemma_sp_pow5_mono(a: int, b: int)
    requires 0 <= a <= b <= ONE as int,
    ensures
        0 <= sp_pow5(a) <= sp_pow5(b),
        sp_pow5(b) <= ONE as int,
    decreases 0nat,
{
    lemma_sp_mul_mono2(a, a, b, b);
    lemma_sp_mul_unit_range(b, b);
    let a2 = sp_mul(a, a);
    let b2 = sp_mul(b, b);
    lemma_sp_mul_mono2(a2, a, b2, b);
    lemma_sp_mul_unit_range(b2, b);
    let a3 = sp_mul(a2, a);
    let b3 = sp_mul(b2, b);
    lemma_sp_mul_mono2(a3, a, b3, b);
    lemma_sp_mul_unit_range(b3, b);
    let a4 = sp_mul(a3, a);
    let b4 = sp_mul(b3, b);
    lemma_sp_mul_mono2(a4, a, b4, b);
    lemma_sp_mul_unit_range(b4, b);
}

/// Fixed-point multiplication is monotone in both (nonnegative) factors.
proof fn lemma_sp_mul_mono2(a_lo: int, b_lo: int, a_hi: int, b_hi: int)
    requires
        0 <= a_lo <= a_hi,
        0 <= b_lo <= b_hi,
    ensures 0 <= sp_mul(a_lo, b_lo) <= sp_mul(a_hi, b_hi),
{
    assert(0 <= a_lo * b_lo && a_lo * b_lo <= a_hi * b_hi) by (nonlinear_arith)
        requires 0 <= a_lo <= a_hi, 0 <= b_lo <= b_hi;
    lemma_tdiv_mono(a_lo * b_lo, a_hi * b_hi, SCALE as int);
    if a_lo * b_lo > 0 {
        vstd::arithmetic::div_mod::lemma_div_pos_is_pos(a_lo * b_lo, SCALE as int);
    } else {
        vstd::arithmetic::div_mod::lemma_div_of0(SCALE as int);
    }
}

// --------------------------------------------- total internal reflection --

/// Under total internal reflection the dielectric's zero-vector refraction
/// sentinel is consumed internally and never surfaces: whatever the uniform
/// draw was, the scattered ray is the reflection about the hit's normal.
pub proof fn lemma_dielectric_tir_always_reflects(m: Dielectric, ray: RayV, hit: HitV, coin: int)
    requires
        v_refract(ray.direction, diel_outward(ray, hit), diel_eta(m, ray, hit)) == v_zero(),
    ensures
        dielectric_scatter_spec(m, ray, hit, coin).1.direction == v_reflect(
            ray.direction,
            hit.normal,
        ),
{
}

// ------------------------------------------------------ zero-fuzz metal --

/// Metal with zero fuzz is a pure mirror: whatever the random perturbation
/// sample was, a scattered ray's direction equals the analytic reflection of
/// the normalized incoming direction about the normal, exactly.
pub proof fn lemma_metal_zero_fuzz_mirror(m: Metal, ray: RayV, hit: HitV, rv: V3)
    requires
        m.fuzz == 0,
        metal_scatter_spec(m, ray, hit, rv) is Some,
    ensures
        metal_scatter_spec(m, ray, hit, rv)->Some_0.1.direction == v_reflect(
            v_normalize(ray.direction),
            hit.normal,
        ),
{
    vstd::arithmetic::div_mod::lemma_div_of0(SCALE as int);
}

} // verus!
