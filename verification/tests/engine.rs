//! Intersection geometry and material scenarios, in raw fixed-point units
//! (1.0 == 1_000_000).

use raytracer_backend::{
    fadd, schlick, Cube, Dielectric, Lambertian, Material, Metal, Plane, Quat, Ray, Sphere, Vec3,
    ONE, RAW_MAX,
};

fn gray(v: i64) -> Material {
    Material::Lambertian(Lambertian::new(Vec3::new(v, v, v)))
}

#[test]
fn sphere_head_on_hit_t_and_normal() {
    // A unit sphere five units down the -z axis, the ray aimed at its center:
    // t = distance - radius = 4, normal parallel to (p - center), unit length.
    let s = Sphere::new(Vec3::new(0, 0, -5 * ONE), ONE, gray(ONE / 2));
    let r = Ray::new(Vec3::new(0, 0, 0), Vec3::new(0, 0, -ONE));
    let h = s.hit(&r, 1_000, RAW_MAX).expect("head-on ray must hit");
    assert_eq!(h.t, 4 * ONE);
    assert_eq!(h.p, Vec3::new(0, 0, -4 * ONE));
    assert_eq!(h.normal, Vec3::new(0, 0, ONE));
}

#[test]
fn sphere_far_root_used_from_inside() {
    // From the center, the near root is negative (behind the window), so the
    // far root at t = radius is returned.
    let s = Sphere::new(Vec3::new(0, 0, -5 * ONE), ONE, gray(ONE / 2));
    let r = Ray::new(Vec3::new(0, 0, -5 * ONE), Vec3::new(0, 0, -ONE));
    let h = s.hit(&r, 1_000, RAW_MAX).expect("ray from center must exit");
    assert_eq!(h.t, ONE);
}

#[test]
fn sphere_miss_perpendicular_offset() {
    // Offset 2 > radius 1: no hit in any window.
    let s = Sphere::new(Vec3::new(0, 0, -5 * ONE), ONE, gray(ONE / 2));
    let r = Ray::new(Vec3::new(0, 2 * ONE, 0), Vec3::new(0, 0, -ONE));
    assert!(s.hit(&r, 1_000, RAW_MAX).is_none());
    assert!(s.hit(&r, -RAW_MAX, RAW_MAX).is_none());
    assert!(s.hit(&r, 0, 10 * ONE).is_none());
}

#[test]
fn sphere_tangent_ray_excluded() {
    // Offset exactly the radius: the discriminant is zero and the grazing
    // ray is deliberately not a hit.
    let s = Sphere::new(Vec3::new(0, 0, -5 * ONE), ONE, gray(ONE / 2));
    let r = Ray::new(Vec3::new(0, ONE, 0), Vec3::new(0, 0, -ONE));
    assert!(s.hit(&r, 1_000, RAW_MAX).is_none());
}

#[test]
fn sphere_hit_respects_window() {
    let s = Sphere::new(Vec3::new(0, 0, -5 * ONE), ONE, gray(ONE / 2));
    let r = Ray::new(Vec3::new(0, 0, 0), Vec3::new(0, 0, -ONE));
    // The near root t = 4 is outside (0, 3.9); the far root t = 6 is found.
    let h = s.hit(&r, 1_000, 3_900_000);
    assert!(h.is_none() || h.unwrap().t == 6 * ONE);
    let h2 = s.hit(&r, 1_000, 5 * ONE).expect("near root inside window");
    assert_eq!(h2.t, 4 * ONE);
}

#[test]
fn plane_hit_from_above() {
    // normal (0,1,0), point (0,0,0); ray from (0,5,0) straight down: t = 5,
    // p = origin of the plane.
    let pl = Plane::new(Vec3::new(0, 0, 0), Vec3::new(0, ONE, 0), gray(ONE / 2));
    let r = Ray::new(Vec3::new(0, 5 * ONE, 0), Vec3::new(0, -ONE, 0));
    let h = pl.hit(&r, 1_000, RAW_MAX).expect("downward ray must hit");
    assert_eq!(h.t, 5 * ONE);
    assert_eq!(h.p, Vec3::new(0, 0, 0));
    assert_eq!(h.normal, Vec3::new(0, ONE, 0));
}

#[test]
fn plane_parallel_ray_misses() {
    let pl = Plane::new(Vec3::new(0, 0, 0), Vec3::new(0, ONE, 0), gray(ONE / 2));
    let r = Ray::new(Vec3::new(0, 5 * ONE, 0), Vec3::new(ONE, 0, 0));
    assert!(pl.hit(&r, 1_000, RAW_MAX).is_none());
}

#[test]
fn cube_axis_aligned_face_hit_round_trip() {
    // Identity-rotation cube of size 4 centered ten units down -z; a ray
    // down the axis hits the near z face at t = 8, and the hit point carried
    // back into the local frame lies within the half extents.
    let c = Cube::new(Vec3::new(0, 0, -10 * ONE), 4 * ONE, Quat::identity(), gray(ONE / 2));
    let r = Ray::new(Vec3::new(0, 0, 0), Vec3::new(0, 0, -ONE));
    let h = c.hit(&r, 1_000, RAW_MAX).expect("axis ray must hit the cube");
    assert_eq!(h.t, 8 * ONE);
    assert_eq!(h.p, Vec3::new(0, 0, -8 * ONE));
    assert_eq!(h.normal, Vec3::new(0, 0, ONE));
    // Inverse transform for the identity rotation: subtract the center.
    let local = h.p.sub(Vec3::new(0, 0, -10 * ONE));
    let half = 2 * ONE;
    assert!(-half <= local.x && local.x <= half);
    assert!(-half <= local.y && local.y <= half);
    assert!(-half <= local.z && local.z <= half);
}

#[test]
fn cube_ray_beside_it_misses() {
    let c = Cube::new(Vec3::new(0, 0, -10 * ONE), 4 * ONE, Quat::identity(), gray(ONE / 2));
    let r = Ray::new(Vec3::new(10 * ONE, 0, 0), Vec3::new(0, 0, -ONE));
    assert!(c.hit(&r, 1_000, RAW_MAX).is_none());
}

#[test]
fn metal_zero_fuzz_is_pure_mirror() {
    // fuzz = 0: whatever the perturbation sample, the scattered direction is
    // the analytic reflection, exactly.
    let m = Metal::new(Vec3::new(800_000, 800_000, 800_000), 0);
    let hit = raytracer_backend::HitRecord {
        t: ONE,
        p: Vec3::new(0, 0, 0),
        normal: Vec3::new(0, -ONE, 0),
        material: Material::Metal(m),
    };
    let r = Ray::new(Vec3::new(0, ONE, 0), Vec3::new(0, -ONE, 0));
    let rv = Vec3::new(123, -456, 789);
    let (att, scattered) = m.scatter_with(&r, &hit, rv).expect("mirror bounce accepted");
    assert_eq!(att, Vec3::new(800_000, 800_000, 800_000));
    assert_eq!(scattered.direction, Vec3::new(0, ONE, 0));
    assert_eq!(
        scattered.direction,
        r.direction.normalize().reflect(hit.normal)
    );
}

#[test]
fn metal_fuzz_clamped_at_construction() {
    let m = Metal::new(Vec3::new(ONE, ONE, ONE), 3 * ONE);
    assert_eq!(m.fuzz, ONE);
    let m2 = Metal::new(Vec3::new(ONE, ONE, ONE), 250_000);
    assert_eq!(m2.fuzz, 250_000);
}

#[test]
fn lambertian_scatter_direction_and_albedo() {
    let alb = Vec3::new(300_000, 500_000, 700_000);
    let l = Lambertian::new(alb);
    let hit = raytracer_backend::HitRecord {
        t: ONE,
        p: Vec3::new(0, 0, 0),
        normal: Vec3::new(0, ONE, 0),
        material: Material::Lambertian(l),
    };
    let rv = Vec3::new(100, 200, 300);
    let (att, scattered) = l.scatter_with(&hit, rv);
    assert_eq!(att, alb);
    assert_eq!(scattered.origin, hit.p);
    // target - p = normal + rv (no saturation at these magnitudes)
    assert_eq!(scattered.direction, Vec3::new(100, ONE + 200, 300));
}

#[test]
fn schlick_normal_incidence_equals_r0() {
    // n = 1.5: r0 = ((1-1.5)/(1+1.5))^2 = 0.04, exactly representable.
    assert_eq!(schlick(ONE, 1_500_000), 40_000);
}

#[test]
fn schlick_grazing_incidence_is_one() {
    assert_eq!(schlick(0, 1_500_000), ONE);
}

#[test]
fn schlick_monotone_from_normal_to_grazing() {
    let samples = [0, 125_000, 250_000, 500_000, 750_000, 900_000, ONE];
    let mut prev = schlick(samples[0], 1_500_000);
    for i in 1..samples.len() {
        let cur = schlick(samples[i], 1_500_000);
        assert!(cur <= prev, "reflectance must not increase toward normal incidence");
        prev = cur;
    }
}

#[test]
fn dielectric_straight_through_refraction() {
    // Straight into glass (cosine = 1): a draw above the low reflectance
    // refracts straight through; a draw below it reflects.
    let d = Dielectric::new(1_500_000);
    let hit = raytracer_backend::HitRecord {
        t: ONE,
        p: Vec3::new(0, 0, 0),
        normal: Vec3::new(0, ONE, 0),
        material: Material::Dielectric(d),
    };
    let r = Ray::new(Vec3::new(0, ONE, 0), Vec3::new(0, -ONE, 0));
    let (att, refracted) = d.scatter_with(&r, &hit, ONE);
    assert_eq!(att, Vec3::new(ONE, ONE, ONE));
    assert_eq!(refracted.direction, Vec3::new(0, -ONE, 0));
    let (_, reflected) = d.scatter_with(&r, &hit, 0);
    assert_eq!(reflected.direction, Vec3::new(0, ONE, 0));
}

#[test]
fn refract_total_internal_reflection_is_zero_vector() {
    // A steep angle with a large index ratio has a negative discriminant.
    let v = Vec3::new(ONE, -ONE, 0);
    let n = Vec3::new(0, ONE, 0);
    assert_eq!(v.refract(n, 10 * ONE), Vec3::new(0, 0, 0));
}

#[test]
fn fixed_point_ops_exact_values() {
    assert_eq!(fadd(ONE, ONE), 2 * ONE);
    assert_eq!(raytracer_backend::fmul(2 * ONE, 3 * ONE), 6 * ONE);
    assert_eq!(raytracer_backend::fdiv(ONE, 3 * ONE), 333_333);
    assert_eq!(raytracer_backend::fsqrt(4 * ONE), 2 * ONE);
    assert_eq!(raytracer_backend::fsqrt(-5), 0);
    // saturation and division by zero
    assert_eq!(fadd(RAW_MAX, RAW_MAX), RAW_MAX);
    assert_eq!(raytracer_backend::fdiv(ONE, 0), RAW_MAX);
    assert_eq!(raytracer_backend::fdiv(-ONE, 0), -RAW_MAX);
    assert_eq!(raytracer_backend::fneg(-RAW_MAX), RAW_MAX);
}

#[test]
fn vector_algebra_exact_values() {
    let a = Vec3::new(ONE, 0, 0);
    let b = Vec3::new(0, ONE, 0);
    assert_eq!(a.cross(b), Vec3::new(0, 0, ONE));
    assert_eq!(a.dot(b), 0);
    assert_eq!(a.add(b), Vec3::new(ONE, ONE, 0));
    assert_eq!(Vec3::new(3 * ONE, 4 * ONE, 0).length(), 5 * ONE);
    assert_eq!(
        Vec3::new(3 * ONE, 4 * ONE, 0).normalize(),
        Vec3::new(600_000, 800_000, 0)
    );
    let r = Ray::new(Vec3::new(ONE, 0, 0), Vec3::new(0, 2 * ONE, 0));
    assert_eq!(r.point_at(ONE / 2), Vec3::new(ONE, ONE, 0));
}

#[test]
fn dielectric_total_internal_reflection_always_reflects() {
    // A steep exit from glass: refraction is geometrically impossible, so
    // every draw reflects -- including a draw of exactly one, which must not
    // surface the zero-vector sentinel.
    let d = Dielectric::new(1_500_000);
    let hit = raytracer_backend::HitRecord {
        t: ONE,
        p: Vec3::new(0, 0, 0),
        normal: Vec3::new(0, ONE, 0),
        material: Material::Dielectric(d),
    };
    // direction (1, 1, 0) leaves the solid side (dot with the normal > 0)
    let r = Ray::new(Vec3::new(0, -ONE, 0), Vec3::new(ONE, ONE, 0));
    // the refract call on this geometry has a negative discriminant
    let outward = Vec3::new(0, -ONE, 0);
    assert_eq!(r.direction.refract(outward, 1_500_000), Vec3::new(0, 0, 0));
    let expected = r.direction.reflect(hit.normal);
    assert_eq!(expected, Vec3::new(ONE, -ONE, 0));
    for coin in [0, 500_000, ONE] {
        let (att, scattered) = d.scatter_with(&r, &hit, coin);
        assert_eq!(att, Vec3::new(ONE, ONE, ONE));
        assert_eq!(scattered.direction, expected);
    }
}

#[test]
fn refract_zero_discriminant_is_tangent_not_sentinel() {
    // A grazing direction perpendicular to the normal with eta = 1 makes the
    // discriminant exactly zero: the tangent refracted ray exists, and only
    // a negative discriminant fails.
    let v = Vec3::new(ONE, 0, 0);
    let n = Vec3::new(0, ONE, 0);
    // disc = 1 - 1*(1 - 0) = 0 -> refracted = uv, not the zero sentinel
    assert_eq!(v.refract(n, ONE), Vec3::new(ONE, 0, 0));
}
