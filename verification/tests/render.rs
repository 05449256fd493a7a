//! Scene aggregation, radiance resolution, frame assembly, the camera, and
//! the stochastic sampler, in raw fixed-point units (1.0 == 1_000_000).

use raytracer_backend::{
    color, rand_unit, random_in_unit_sphere, Camera, Hitable, HitablesList, Lambertian, Material,
    Ray, RenderMode, RenderParams, Sphere, Vec3, World, ONE, RAW_MAX,
};

fn gray(v: i64) -> Material {
    Material::Lambertian(Lambertian::new(Vec3::new(v, v, v)))
}

#[test]
fn aggregate_returns_nearest_of_two() {
    // Two spheres on the axis; the nearer one wins.
    let near = Sphere::new(Vec3::new(0, 0, -3 * ONE), ONE, gray(ONE / 2));
    let far = Sphere::new(Vec3::new(0, 0, -9 * ONE), ONE, gray(ONE / 4));
    let list = HitablesList::new(vec![Hitable::Sphere(far), Hitable::Sphere(near)]);
    let r = Ray::new(Vec3::new(0, 0, 0), Vec3::new(0, 0, -ONE));
    let h = list.hit(&r, 1_000, RAW_MAX).expect("both spheres are on the ray");
    assert_eq!(h.t, 2 * ONE);
}

#[test]
fn aggregate_equals_brute_force_min_on_random_scene() {
    // On a randomized scene the aggregate must agree with a brute-force
    // sweep over the individual surfaces.
    let world = World::make_plane(16, 0, -25 * ONE, 25 * ONE, -50 * ONE, -4 * ONE);
    assert_eq!(world.objects.hitables.len(), 16);
    for dir in [
        Vec3::new(0, 0, -ONE),
        Vec3::new(200_000, -100_000, -ONE),
        Vec3::new(-300_000, 50_000, -ONE),
    ] {
        let r = Ray::new(Vec3::new(0, 0, 0), dir);
        let aggregate = world.hit(&r, 1_000, RAW_MAX);
        let mut brute: Option<raytracer_backend::HitRecord> = None;
        for s in &world.objects.hitables {
            if let Some(h) = s.hit(&r, 1_000, RAW_MAX) {
                if brute.is_none() || h.t < brute.as_ref().unwrap().t {
                    brute = Some(h);
                }
            }
        }
        match (aggregate, brute) {
            (None, None) => {}
            (Some(a), Some(b)) => {
                assert_eq!(a.t, b.t);
                assert_eq!(a.p, b.p);
                assert_eq!(a.normal, b.normal);
            }
            _ => panic!("aggregate and brute force disagree on whether anything was hit"),
        }
    }
}

#[test]
fn three_spheres_scene_nearest_hit() {
    // The fixed scene: straight down -z the metal sphere at distance 1.5
    // with radius 0.7 is the nearest surface, at t = 0.8 exactly.
    let world = World::make_three_spheres();
    let r = Ray::new(Vec3::new(0, 0, 0), Vec3::new(0, 0, -ONE));
    let h = world.hit(&r, 1_000, RAW_MAX).expect("the scene lies on the axis");
    assert_eq!(h.t, 800_000);
    assert!(matches!(h.material, Material::Metal(_)));
}

#[test]
fn color_miss_primary_ray_is_black() {
    let world = World {
        camera: Camera::new(),
        objects: HitablesList::new(vec![]),
    };
    let r = Ray::new(Vec3::new(0, 0, 0), Vec3::new(0, ONE, 0));
    let c = color(&r, &world, 0, RenderMode::Materials);
    assert_eq!(c, Vec3::new(0, 0, 0));
}

#[test]
fn color_miss_scattered_ray_shows_sky() {
    // A scattered ray pointing straight up: t = 1, sky = 1 - t = 0.
    // Pointing straight down: t = 0, sky = 1.
    let world = World {
        camera: Camera::new(),
        objects: HitablesList::new(vec![]),
    };
    let up = color(
        &Ray::new(Vec3::new(0, 0, 0), Vec3::new(0, ONE, 0)),
        &world,
        1,
        RenderMode::Materials,
    );
    assert_eq!(up, Vec3::new(0, 0, 0));
    let down = color(
        &Ray::new(Vec3::new(0, 0, 0), Vec3::new(0, -ONE, 0)),
        &world,
        1,
        RenderMode::Materials,
    );
    assert_eq!(down, Vec3::new(ONE, ONE, ONE));
}

#[test]
fn color_normals_mode_shows_normal() {
    // Head-on hit: normal (0,0,1) maps to (0.5, 0.5, 1).
    let s = Sphere::new(Vec3::new(0, 0, -5 * ONE), ONE, gray(ONE / 2));
    let world = World {
        camera: Camera::new(),
        objects: HitablesList::new(vec![Hitable::Sphere(s)]),
    };
    let r = Ray::new(Vec3::new(0, 0, 0), Vec3::new(0, 0, -ONE));
    let c = color(&r, &world, 0, RenderMode::Normals);
    assert_eq!(c, Vec3::new(ONE / 2, ONE / 2, ONE));
}

#[test]
fn render_frame_energy_bound_materials() {
    // Every channel of every pixel lies in [0, 1] after gamma and clamp.
    let world = World::make_three_spheres();
    let params = RenderParams {
        width: 8,
        height: 4,
        render_mode: RenderMode::Materials,
        invert_colors: false,
    };
    let frame = world.render_frame(&params);
    assert_eq!(frame.len(), 32);
    for c in &frame {
        assert!(0 <= c.x && c.x <= ONE);
        assert!(0 <= c.y && c.y <= ONE);
        assert!(0 <= c.z && c.z <= ONE);
    }
}

#[test]
fn render_frame_normals_deterministic() {
    let world = World::make_three_spheres();
    let params = RenderParams {
        width: 12,
        height: 6,
        render_mode: RenderMode::Normals,
        invert_colors: false,
    };
    let a = world.render_frame(&params);
    let b = world.render_frame(&params);
    assert_eq!(a.len(), 72);
    assert_eq!(a, b);
    for c in &a {
        assert!(0 <= c.x && c.x <= ONE);
        assert!(0 <= c.y && c.y <= ONE);
        assert!(0 <= c.z && c.z <= ONE);
    }
}

#[test]
fn render_params_default_values() {
    let p = RenderParams::default();
    assert_eq!(p.width, 160);
    assert_eq!(p.height, 80);
    assert!(p.render_mode == RenderMode::Materials);
    assert!(!p.invert_colors);
}

#[test]
fn make_plane_default_scene_size() {
    let world = World::make_plane_default();
    assert_eq!(world.objects.hitables.len(), 12);
    assert_eq!(world.camera.translation, Vec3::new(0, 0, 0));
}

#[test]
fn camera_center_ray_points_down_focus_axis() {
    let cam = Camera::new();
    let r = cam.get_ray(ONE / 2, ONE / 2);
    assert_eq!(r.origin, Vec3::new(0, 0, 0));
    assert_eq!(r.direction, Vec3::new(0, 0, -ONE));
}

#[test]
fn camera_corner_ray() {
    // u = v = 0: direction (-w/2, -h/2, focus) = (-2, -1, -1).
    let cam = Camera::new();
    let r = cam.get_ray(0, 0);
    assert_eq!(r.direction, Vec3::new(-2 * ONE, -ONE, -ONE));
}

#[test]
fn camera_translation_along_local_axes() {
    let mut cam = Camera::new();
    cam.translate_up(ONE / 2);
    assert_eq!(cam.translation, Vec3::new(0, ONE / 2, 0));
    cam.translate_left(ONE / 4);
    assert_eq!(cam.translation, Vec3::new(-(ONE / 4), ONE / 2, 0));
    cam.translate_forward(ONE);
    assert_eq!(cam.translation, Vec3::new(-(ONE / 4), ONE / 2, -ONE));
}

#[test]
fn camera_yaw_quarter_turn() {
    let mut cam = Camera::new();
    // cos 90 = 0, sin 90 = 1
    cam.rotate_yaw(0, ONE);
    assert_eq!(cam.x_axis, Vec3::new(0, 0, -ONE));
    assert_eq!(cam.y_axis, Vec3::new(0, ONE, 0));
    assert_eq!(cam.z_axis, Vec3::new(ONE, 0, 0));
}

#[test]
fn camera_focus_shift() {
    let mut cam = Camera::new();
    cam.change_focus(-ONE / 2);
    assert_eq!(cam.focus, -1_500_000);
}

#[test]
fn sampler_stays_inside_unit_ball() {
    for _ in 0..32 {
        let p = random_in_unit_sphere();
        assert!(p.length_squared() < ONE);
    }
}

#[test]
fn rand_unit_range_and_entropy() {
    let mut distinct = false;
    let first = rand_unit();
    assert!(0 <= first && first <= ONE);
    for _ in 0..16 {
        let u = rand_unit();
        assert!(0 <= u && u <= ONE);
        if u != first {
            distinct = true;
        }
    }
    assert!(distinct, "seventeen identical draws from OS entropy");
}

#[test]
fn camera_pitch_quarter_turn() {
    let mut cam = Camera::new();
    // cos 90 = 0, sin 90 = 1
    cam.rotate_pitch(0, ONE);
    assert_eq!(cam.x_axis, Vec3::new(ONE, 0, 0));
    assert_eq!(cam.y_axis, Vec3::new(0, 0, ONE));
    assert_eq!(cam.z_axis, Vec3::new(0, -ONE, 0));
}

#[test]
fn color_metal_absorption_falls_back_to_ambient() {
    // Straight at the fuzzed metal sphere: the perturbed mirror direction
    // still points along the outward normal, so the metal absorbs the ray
    // whatever the perturbation draw was, and the sky term for a horizontal
    // ray is exactly one half per channel.
    let world = World::make_three_spheres();
    let r = Ray::new(Vec3::new(0, 0, 0), Vec3::new(0, 0, -ONE));
    let c = color(&r, &world, 0, RenderMode::Materials);
    assert_eq!(c, Vec3::new(ONE / 2, ONE / 2, ONE / 2));
}

#[test]
fn make_plane_shapes_within_stated_ranges() {
    let world = World::make_plane(24, 3 * ONE, -10 * ONE, 10 * ONE, -40 * ONE, -5 * ONE);
    assert_eq!(world.objects.hitables.len(), 24);
    for h in &world.objects.hitables {
        match h {
            Hitable::Sphere(s) => {
                assert_eq!(s.center.y, 3 * ONE);
                assert!(-10 * ONE <= s.center.x && s.center.x <= 10 * ONE);
                assert!(-40 * ONE <= s.center.z && s.center.z <= -5 * ONE);
                assert!(100_000 <= s.radius && s.radius <= 4 * ONE);
                check_scene_material(&s.material);
            }
            Hitable::Cube(c) => {
                assert_eq!(c.center.y, 3 * ONE);
                assert!(-10 * ONE <= c.center.x && c.center.x <= 10 * ONE);
                assert!(-40 * ONE <= c.center.z && c.center.z <= -5 * ONE);
                assert!(200_000 <= c.size && c.size <= 8 * ONE);
                check_scene_material(&c.material);
            }
            Hitable::Plane(_) => panic!("the randomized field holds no planes"),
        }
    }
}

fn check_scene_material(m: &Material) {
    if let Material::Dielectric(d) = m {
        assert!(ONE <= d.refraction_index && d.refraction_index <= 2 * ONE);
    }
}
