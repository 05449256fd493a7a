//! The scene, the recursive radiance resolver, and frame assembly.
//!
//! A frame is a row-major sequence of linear RGB triples (top row first),
//! each channel clamped into `[0, ONE]`; the presentation layer quantizes
//! them into display units.

use vstd::prelude::*;
use crate::camera::{camera_default_spec, camera_ray_spec, Camera};
use crate::fixed::{
    fadd, fclamp, fdiv, fmul, fsqrt, fsub, sat, sp_add, sp_clamp, sp_div, sp_mul, sp_sqrt, sp_sub,
    ONE, RAW_MAX, SCALE,
};
use crate::hit::{hit_view, HitRecord, HitV};
use crate::material::{in_unit_ball, v_one, Dielectric, Lambertian, Material, Metal};
use crate::material::{dielectric_scatter_spec, lambertian_scatter_spec, metal_scatter_spec,
    scatter_view};
use crate::quat::Quat;
use crate::rand_src::{rand_min_max, rand_unit};
use crate::ray::{Ray, RayV};
use crate::surface::{list_hit_spec, Cube, Hitable, HitablesList, Plane, Sphere};
use crate::vec3::{v_add, v_mul, v_normalize, v_scale, v_zero, Vec3, V3};

verus! {

/// The hard ceiling on scatter recursion.
pub const REFLECTIONS_COUNT: usize = 5;
/// Shadow-acne epsilon: hits closer than this along a traced ray are ignored.
pub const T_MIN_EPS: i64 = 1_000;
/// The raw fixed-point value of one half.
pub const HALF: i64 = 500_000;

#[derive(Clone, Copy, Debug, PartialEq, Eq, Structural)]
pub enum RenderMode {
    Normals,
    Materials,
}

pub struct RenderParams {
    pub width: usize,
    pub height: usize,
    pub render_mode: RenderMode,
    pub invert_colors: bool,
}

impl Default for RenderParams {
    fn default() -> (r: RenderParams)
        ensures
            r.width == 160,
            r.height == 80,
            r.render_mode == RenderMode::Materials,
            !r.invert_colors,
    {
        RenderParams {
            width: 160,
            height: 80,
            render_mode: RenderMode::Materials,
            invert_colors: false,
        }
    }
}

/// The sky gradient a scattered ray escapes into: white fading down with the
/// normalized direction's height, `1 * (1 - t) + 0 * t` for
/// `t = (dir.y + 1) / 2`.
pub open spec fn ambient_spec(ray: RayV) -> V3 {
    let u = v_normalize(ray.direction);
    let t = sp_mul(HALF as int, sp_add(u.y, ONE as int));
    v_add(v_scale(v_one(), sp_sub(ONE as int, t)), v_scale(v_zero(), t))
}

/// The color a primary ray that hits nothing shows: black, so an empty
/// canvas stays readable.
pub open spec fn fake_ambient_spec() -> V3 {
    v_zero()
}

/// The normal-visualization color `(normal + 1) / 2`.
pub open spec fn normal_color_spec(h: HitV) -> V3 {
    v_scale(
        V3 {
            x: sp_add(h.normal.x, ONE as int),
            y: sp_add(h.normal.y, ONE as int),
            z: sp_add(h.normal.z, ONE as int),
        },
        HALF as int,
    )
}

/// Channel-wise clamp into `[0, ONE]`.
pub open spec fn clamp3(c: V3) -> V3 {
    V3 {
        x: sp_clamp(c.x, 0, ONE as int),
        y: sp_clamp(c.y, 0, ONE as int),
        z: sp_clamp(c.z, 0, ONE as int),
    }
}

/// Channel-wise square-root gamma correction.
pub open spec fn gamma3(c: V3) -> V3 {
    V3 { x: sp_sqrt(c.x), y: sp_sqrt(c.y), z: sp_sqrt(c.z) }
}

/// Every channel lies in `[0, ONE]`.
pub open spec fn channels_clamped(c: V3) -> bool {
    0 <= c.x <= ONE as int && 0 <= c.y <= ONE as int && 0 <= c.z <= ONE as int
}

/// The attenuation a material multiplies into the scattered light.
pub open spec fn material_attenuation(m: Material) -> V3 {
    match m {
        Material::Lambertian(l) => l.albedo@,
        Material::Metal(mm) => mm.albedo@,
        Material::Dielectric(_) => v_one(),
    }
}

/// The hit's material is a metal that absorbs every perturbation the unit
/// ball can supply for this ray.
pub open spec fn metal_always_absorbs(mat: Material, ray: RayV, h: HitV) -> bool {
    match mat {
        Material::Metal(m) => forall|rv: V3|
            in_unit_ball(rv) ==> #[trigger] metal_scatter_spec(m, ray, h, rv) is None,
        _ => false,
    }
}

/// What the radiance resolver returns for `ray` at `depth`: the exact value
/// on every deterministic path (misses, Normals mode, the depth ceiling,
/// metal geometries that absorb every perturbation), and the attenuation
/// structure where a random draw decides.
#[verifier::opaque]
pub open spec fn resolver_ok(
    objects: Seq<Hitable>,
    ray: RayV,
    depth: int,
    render_mode: RenderMode,
    c: V3,
) -> bool {
    let h = list_hit_spec(objects, ray, T_MIN_EPS as int, RAW_MAX as int);
    &&& (h is None && depth == 0 ==> c == fake_ambient_spec())
    &&& (h is None && depth > 0 ==> c == ambient_spec(ray))
    &&& (h is Some && render_mode == RenderMode::Normals ==> c == normal_color_spec(h->Some_0))
    &&& (h is Some && render_mode == RenderMode::Materials && depth >= REFLECTIONS_COUNT as int
        ==> c == ambient_spec(ray))
    &&& (h is Some && render_mode == RenderMode::Materials && depth < REFLECTIONS_COUNT as int
        ==> (c == ambient_spec(ray) || exists|sub: V3|
            c == v_mul(sub, material_attenuation(h->Some_0.material))))
    &&& (h is Some && render_mode == RenderMode::Materials && depth < REFLECTIONS_COUNT as int
        && !(h->Some_0.material is Metal) ==> exists|sub: V3|
            c == v_mul(sub, material_attenuation(h->Some_0.material)))
    &&& (h is Some && render_mode == RenderMode::Materials && depth < REFLECTIONS_COUNT as int
        && metal_always_absorbs(h->Some_0.material, ray, h->Some_0) ==> c == ambient_spec(ray))
}

fn ambient_color(r: &Ray) -> (c: Vec3)
    ensures c@ == ambient_spec(r@),
{
    let u: Vec3 = r.direction.normalize();
    let t: i64 = fmul(HALF, fadd(u.y, ONE));
    Vec3::new(ONE, ONE, ONE).scale(fsub(ONE, t)).add(Vec3::zero().scale(t))
}

fn fake_ambient_color() -> (c: Vec3)
    ensures c@ == fake_ambient_spec(),
{
    Vec3::zero()
}

fn normal_color(h: &HitRecord) -> (c: Vec3)
    ensures c@ == normal_color_spec(h@),
{
    Vec3::new(fadd(h.normal.x, ONE), fadd(h.normal.y, ONE), fadd(h.normal.z, ONE)).scale(HALF)
}

/// Clamp each channel of a color into `[0, ONE]`.
pub fn clamp_color(c: &mut Vec3)
    ensures final(c)@ == clamp3(old(c)@),
{
    let r: Vec3 = Vec3::new(
        fclamp(c.x, 0, ONE),
        fclamp(c.y, 0, ONE),
        fclamp(c.z, 0, ONE),
    );
    *c = r;
}

fn gamma_color(c: Vec3) -> (r: Vec3)
    ensures r@ == gamma3(c@),
{
    Vec3::new(fsqrt(c.x), fsqrt(c.y), fsqrt(c.z))
}

/// The scene: a camera and the aggregate of its surfaces.
pub struct World {
    pub camera: Camera,
    pub objects: HitablesList,
}

impl World {
    /// The nearest valid hit over the whole scene.
    pub fn hit(&self, ray: &Ray, t_min: i64, t_max: i64) -> (r: Option<HitRecord>)
        ensures
            hit_view(r) == list_hit_spec(self.objects.hitables@, ray@, t_min as int, t_max as int),
    {
        self.objects.hit(ray, t_min, t_max)
    }
}

/// The recursive radiance resolver.
///
/// A miss on a primary ray is black; a miss on a scattered ray shows the sky
/// gradient. A hit in Normals mode shows the normal directly. In Materials
/// mode the hit's material scatters (or absorbs, which falls back to the sky
/// term), and the scattered ray is resolved one level deeper, to a hard
/// ceiling of `REFLECTIONS_COUNT` scatter events; the result is the deeper
/// color attenuated component-wise.
pub fn color(r: &Ray, world: &World, depth: usize, render_mode: RenderMode) -> (c: Vec3)
    ensures
        resolver_ok(world.objects.hitables@, r@, depth as int, render_mode, c@),
    decreases REFLECTIONS_COUNT - depth,
{
    proof {
        reveal(resolver_ok);
    }
    let hit_opt: Option<HitRecord> = world.hit(r, T_MIN_EPS, RAW_MAX);
    match hit_opt {
        None => {
            if depth > 0 {
                ambient_color(r)
            } else {
                fake_ambient_color()
            }
        }
        Some(hit) => {
            if render_mode == RenderMode::Normals {
                return normal_color(&hit);
            }
            if depth >= REFLECTIONS_COUNT {
                return ambient_color(r);
            }
            let sc: Option<(Vec3, Ray)> = hit.material.scatter(r, &hit);
            match sc {
                None => {
                    proof {
                        match hit.material {
                            Material::Lambertian(m) => {
                                let rv = choose|rv: V3|
                                    in_unit_ball(rv) && scatter_view(sc) == Some(
                                        lambertian_scatter_spec(m, hit@, rv),
                                    );
                                assert(false);
                            }
                            Material::Dielectric(m) => {
                                let coin = choose|coin: int|
                                    0 <= coin <= ONE as int && scatter_view(sc) == Some(
                                        dielectric_scatter_spec(m, r@, hit@, coin),
                                    );
                                assert(false);
                            }
                            Material::Metal(_) => {}
                        }
                    }
                    ambient_color(r)
                }
                Some((attenuation, scattered)) => {
                    proof {
                        match hit.material {
                            Material::Lambertian(m) => {
                                let rv = choose|rv: V3|
                                    in_unit_ball(rv) && scatter_view(sc) == Some(
                                        lambertian_scatter_spec(m, hit@, rv),
                                    );
                                assert(attenuation@ == m.albedo@);
                            }
                            Material::Metal(m) => {
                                let rv = choose|rv: V3|
                                    in_unit_ball(rv) && scatter_view(sc) == metal_scatter_spec(
                                        m,
                                        r@,
                                        hit@,
                                        rv,
                                    );
                                assert(attenuation@ == m.albedo@);
                                assert(!(metal_scatter_spec(m, r@, hit@, rv) is None));
                                assert(!metal_always_absorbs(hit@.material, r@, hit@));
                            }
                            Material::Dielectric(m) => {
                                let coin = choose|coin: int|
                                    0 <= coin <= ONE as int && scatter_view(sc) == Some(
                                        dielectric_scatter_spec(m, r@, hit@, coin),
                                    );
                                assert(attenuation@ == v_one());
                            }
                        }
                    }
                    let sub: Vec3 = color(&scattered, world, depth + 1, render_mode);
                    let res: Vec3 = sub.mul(attenuation);
                    proof {
                        assert(res@ == v_mul(sub@, material_attenuation(hit@.material)));
                    }
                    res
                }
            }
        }
    }
}

/// A raw fixed-point value from a pixel count, saturating.
pub open spec fn fix_of(n: int) -> int {
    sat(n * SCALE as int)
}

fn fix_of_usize(n: usize) -> (r: i64)
    ensures r as int == fix_of(n as int),
{
    proof {
        assert((n as int) * (SCALE as int) < 0x1_0000_0000_0000_0000_0000_0000) by (nonlinear_arith)
            requires 0 <= (n as int) < 0x1_0000_0000_0000_0000, SCALE as int == 1_000_000;
    }
    let p: u128 = (n as u128) * (SCALE as u128);
    if p > RAW_MAX as u128 {
        RAW_MAX
    } else {
        p as i64
    }
}

/// The camera ray of the pixel at `(row, col)`: normalized coordinates
/// `u = col/width`, `v = row/height` in fixed point.
#[verifier::opaque]
pub open spec fn pixel_ray_spec(cam: Camera, width: int, height: int, row: int, col: int) -> RayV {
    camera_ray_spec(cam, sp_div(fix_of(col), fix_of(width)), sp_div(fix_of(row), fix_of(height)))
}

/// The exact color of a pixel in Normals mode (no randomness takes part):
/// the visualized normal of the nearest hit, or black on a miss, clamped.
#[verifier::opaque]
pub open spec fn normals_pixel_spec(
    objects: Seq<Hitable>,
    cam: Camera,
    width: int,
    height: int,
    row: int,
    col: int,
) -> V3 {
    let ray = pixel_ray_spec(cam, width, height, row, col);
    let h = list_hit_spec(objects, ray, T_MIN_EPS as int, RAW_MAX as int);
    clamp3(
        match h {
            Some(hh) => normal_color_spec(hh),
            None => fake_ambient_spec(),
        },
    )
}

/// Pixel `k` of a Materials-mode frame: the clamp of the gamma correction
/// of some color the radiance resolver can return for that pixel's camera
/// ray.
#[verifier::opaque]
pub open spec fn materials_pixel_ok(
    objects: Seq<Hitable>,
    cam: Camera,
    width: int,
    height: int,
    k: int,
    pix: V3,
) -> bool {
    exists|c0: V3|
        #[trigger] resolver_ok(
            objects,
            pixel_ray_spec(cam, width, height, height - 1 - k / width, k % width),
            0,
            RenderMode::Materials,
            c0,
        ) && pix == clamp3(gamma3(c0))
}

impl World {
    /// Render a frame: a row-major sequence of RGB triples, top row first,
    /// one per pixel; gamma-corrected outside Normals mode and always
    /// clamped into `[0, ONE]`. In Normals mode every pixel equals its
    /// deterministic specification.
    #[verifier::rlimit(100)]
    pub fn render_frame(&self, params: &RenderParams) -> (frame: Vec<Vec3>)
        requires
            (params.width as int) * (params.height as int) <= usize::MAX as int,
        ensures
            frame@.len() == (params.width as int) * (params.height as int),
            forall|k: int|
                0 <= k < frame@.len() ==> channels_clamped(#[trigger] frame@[k]@),
            params.render_mode == RenderMode::Normals ==> forall|k: int|
                0 <= k < frame@.len() ==> #[trigger] frame@[k]@ == normals_pixel_spec(
                    self.objects.hitables@,
                    self.camera,
                    params.width as int,
                    params.height as int,
                    params.height as int - 1 - k / (params.width as int),
                    k % (params.width as int),
                ),
            forall|k: int|
                #![trigger frame@[k]]
                0 <= k < frame@.len() && list_hit_spec(
                    self.objects.hitables@,
                    pixel_ray_spec(
                        self.camera,
                        params.width as int,
                        params.height as int,
                        params.height as int - 1 - k / (params.width as int),
                        k % (params.width as int),
                    ),
                    T_MIN_EPS as int,
                    RAW_MAX as int,
                ) is None ==> frame@[k]@ == v_zero(),
            params.render_mode == RenderMode::Materials ==> forall|k: int|
                0 <= k < frame@.len() ==> #[trigger] materials_pixel_ok(
                    self.objects.hitables@,
                    self.camera,
                    params.width as int,
                    params.height as int,
                    k,
                    frame@[k]@,
                ),
    {
        let width: usize = params.width;
        let height: usize = params.height;
        let mut frame: Vec<Vec3> = Vec::new();
        let mut rr: usize = 0;
        while rr < height
            invariant
                rr <= height,
                (width as int) * (height as int) <= usize::MAX as int,
                frame@.len() == (rr as int) * (width as int),
                forall|k: int|
                    0 <= k < frame@.len() ==> channels_clamped(#[trigger] frame@[k]@),
                params.render_mode == RenderMode::Normals ==> forall|k: int|
                    0 <= k < frame@.len() ==> #[trigger] frame@[k]@ == normals_pixel_spec(
                        self.objects.hitables@,
                        self.camera,
                        width as int,
                        height as int,
                        height as int - 1 - k / (width as int),
                        k % (width as int),
                    ),
                forall|k: int|
                    #![trigger frame@[k]]
                    0 <= k < frame@.len() && list_hit_spec(
                        self.objects.hitables@,
                        pixel_ray_spec(
                            self.camera,
                            width as int,
                            height as int,
                            height as int - 1 - k / (width as int),
                            k % (width as int),
                        ),
                        T_MIN_EPS as int,
                        RAW_MAX as int,
                    ) is None ==> frame@[k]@ == v_zero(),
                params.render_mode == RenderMode::Materials ==> forall|k: int|
                    0 <= k < frame@.len() ==> #[trigger] materials_pixel_ok(
                        self.objects.hitables@,
                        self.camera,
                        width as int,
                        height as int,
                        k,
                        frame@[k]@,
                    ),
            decreases height - rr,
        {
            let row: usize = height - 1 - rr;
            let mut col: usize = 0;
            proof {
                assert((rr as int) * (width as int) + (width as int) <= (height as int) * (
                width as int)) by (nonlinear_arith)
                    requires 0 <= rr as int, (rr as int) + 1 <= height as int, 0 <= width as int;
            }
            while col < width
                invariant
                    col <= width,
                    rr < height,
                    row == height - 1 - rr,
                    (width as int) * (height as int) <= usize::MAX as int,
                    (rr as int) * (width as int) + (width as int) <= (height as int) * (
                    width as int),
                    frame@.len() == (rr as int) * (width as int) + (col as int),
                    forall|k: int|
                        0 <= k < frame@.len() ==> channels_clamped(#[trigger] frame@[k]@),
                    params.render_mode == RenderMode::Normals ==> forall|k: int|
                        0 <= k < frame@.len() ==> #[trigger] frame@[k]@ == normals_pixel_spec(
                            self.objects.hitables@,
                            self.camera,
                            width as int,
                            height as int,
                            height as int - 1 - k / (width as int),
                            k % (width as int),
                        ),
                    forall|k: int|
                        #![trigger frame@[k]]
                        0 <= k < frame@.len() && list_hit_spec(
                            self.objects.hitables@,
                            pixel_ray_spec(
                                self.camera,
                                width as int,
                                height as int,
                                height as int - 1 - k / (width as int),
                                k % (width as int),
                            ),
                            T_MIN_EPS as int,
                            RAW_MAX as int,
                        ) is None ==> frame@[k]@ == v_zero(),
                    params.render_mode == RenderMode::Materials ==> forall|k: int|
                        0 <= k < frame@.len() ==> #[trigger] materials_pixel_ok(
                            self.objects.hitables@,
                            self.camera,
                            width as int,
                            height as int,
                            k,
                            frame@[k]@,
                        ),
                decreases width - col,
            {
                let u: i64 = fdiv(fix_of_usize(col), fix_of_usize(width));
                let v: i64 = fdiv(fix_of_usize(row), fix_of_usize(height));
                let ray: Ray = self.camera.get_ray(u, v);
                let c_raw: Vec3 = color(&ray, self, 0, params.render_mode);
                let mut c: Vec3 = c_raw;
                if params.render_mode != RenderMode::Normals {
                    c = gamma_color(c);
                }
                clamp_color(&mut c);
                proof {
                    let k = (rr as int) * (width as int) + (col as int);
                    vstd::arithmetic::div_mod::lemma_fundamental_div_mod_converse(
                        k,
                        width as int,
                        rr as int,
                        col as int,
                    );
                    assert(k / (width as int) == rr as int);
                    assert(k % (width as int) == col as int);
                    reveal(resolver_ok);
                    reveal(pixel_ray_spec);
                    reveal(normals_pixel_spec);
                    let rayv = pixel_ray_spec(
                        self.camera,
                        width as int,
                        height as int,
                        row as int,
                        col as int,
                    );
                    assert(ray@ == rayv);
                    if params.render_mode == RenderMode::Normals {
                        assert(c@ == normals_pixel_spec(
                            self.objects.hitables@,
                            self.camera,
                            width as int,
                            height as int,
                            row as int,
                            col as int,
                        ));
                    }
                    if list_hit_spec(
                        self.objects.hitables@,
                        rayv,
                        T_MIN_EPS as int,
                        RAW_MAX as int,
                    ) is None {
                        assert(c_raw@ == fake_ambient_spec());
                        assert(gamma3(v_zero()) == v_zero());
                        assert(clamp3(v_zero()) == v_zero());
                        assert(c@ == v_zero());
                    }
                    if params.render_mode == RenderMode::Materials {
                        reveal(materials_pixel_ok);
                        assert(resolver_ok(
                            self.objects.hitables@,
                            rayv,
                            0,
                            RenderMode::Materials,
                            c_raw@,
                        ));
                        assert(c@ == clamp3(gamma3(c_raw@)));
                        assert(materials_pixel_ok(
                            self.objects.hitables@,
                            self.camera,
                            width as int,
                            height as int,
                            k,
                            c@,
                        ));
                    }
                }
                frame.push(c);
                col = col + 1;
            }
            proof {
                assert((rr as int + 1) * (width as int) == (rr as int) * (width as int) + (
                width as int)) by (nonlinear_arith);
            }
            rr = rr + 1;
        }
        proof {
            assert((height as int) * (width as int) == (width as int) * (height as int))
                by (nonlinear_arith);
        }
        frame
    }

    /// The fixed demonstration scene of three spheres.
    pub fn make_three_spheres() -> (r: World)
        ensures
            r.camera == camera_default_spec(),
            r.objects.hitables@ == three_spheres_objects(),
    {
        let mut v: Vec<Hitable> = Vec::new();
        v.push(
            Hitable::Sphere(
                Sphere::new(
                    Vec3::new(-1_000_000, -600_000, -3_000_000),
                    1_500_000,
                    Material::Lambertian(Lambertian::new(Vec3::new(400_000, 400_000, 400_000))),
                ),
            ),
        );
        v.push(
            Hitable::Sphere(
                Sphere::new(
                    Vec3::new(0, 0, -1_500_000),
                    700_000,
                    Material::Metal(Metal::new(Vec3::new(1_000_000, 600_000, 600_000), 200_000)),
                ),
            ),
        );
        v.push(
            Hitable::Sphere(
                Sphere::new(
                    Vec3::new(300_000, 300_000, -700_000),
                    180_000,
                    Material::Metal(Metal::new(Vec3::new(800_000, 800_000, 800_000), 100_000)),
                ),
            ),
        );
        proof {
            assert(v@ =~= three_spheres_objects());
        }
        World { camera: Camera::new(), objects: HitablesList::new(v) }
    }

    /// A randomized field of spheres and cubes scattered on a plane at
    /// `y_level`; the count, the camera and the ground level are fixed, the
    /// rest is drawn from the entropy source.
    pub fn make_plane(
        spheres_count: usize,
        y_level: i64,
        min_x: i64,
        max_x: i64,
        min_z: i64,
        max_z: i64,
    ) -> (r: World)
        ensures
            r.camera == camera_default_spec(),
            r.objects.hitables@.len() == spheres_count as int,
            forall|k: int|
                0 <= k < spheres_count as int ==> scene_shape(
                    #[trigger] r.objects.hitables@[k],
                    y_level as int,
                    min_x as int,
                    max_x as int,
                    min_z as int,
                    max_z as int,
                ),
    {
        let mut shapes: Vec<Hitable> = Vec::new();
        let mut i: usize = 0;
        while i < spheres_count
            invariant
                i <= spheres_count,
                shapes@.len() == i as int,
                forall|k: int|
                    0 <= k < i as int ==> scene_shape(
                        #[trigger] shapes@[k],
                        y_level as int,
                        min_x as int,
                        max_x as int,
                        min_z as int,
                        max_z as int,
                    ),
            decreases spheres_count - i,
        {
            let material_rand: i64 = rand_unit();
            let material: Material = if material_rand < 330_000 {
                Material::Metal(
                    Metal::new(Vec3::new(rand_unit(), rand_unit(), rand_unit()), rand_unit()),
                )
            } else if material_rand < 660_000 {
                Material::Lambertian(
                    Lambertian::new(Vec3::new(rand_unit(), rand_unit(), rand_unit())),
                )
            } else {
                Material::Dielectric(Dielectric::new(fadd(rand_unit(), ONE)))
            };
            let shape_rand: i64 = rand_unit();
            let shape: Hitable = if shape_rand < 500_000 {
                Hitable::Sphere(
                    Sphere::new(
                        Vec3::new(
                            rand_min_max(min_x, max_x),
                            y_level,
                            rand_min_max(min_z, max_z),
                        ),
                        rand_min_max(100_000, 4_000_000),
                        material,
                    ),
                )
            } else {
                Hitable::Cube(
                    Cube::new(
                        Vec3::new(
                            rand_min_max(min_x, max_x),
                            y_level,
                            rand_min_max(min_z, max_z),
                        ),
                        rand_min_max(200_000, 8_000_000),
                        random_rotation(),
                        material,
                    ),
                )
            };
            shapes.push(shape);
            i = i + 1;
        }
        World { camera: Camera::new(), objects: HitablesList::new(shapes) }
    }

    /// The default randomized scene.
    pub fn make_plane_default() -> (r: World)
        ensures
            r.camera == camera_default_spec(),
            r.objects.hitables@.len() == 12,
            forall|k: int|
                0 <= k < 12 ==> scene_shape(
                    #[trigger] r.objects.hitables@[k],
                    0,
                    -25_000_000,
                    25_000_000,
                    -50_000_000,
                    -4_000_000,
                ),
    {
        World::make_plane(12, 0, -25_000_000, 25_000_000, -50_000_000, -4_000_000)
    }
}

/// Within the bounds, whenever they are representable and in order.
pub open spec fn coord_in(x: int, lo: int, hi: int) -> bool {
    (-(RAW_MAX as int) <= lo && lo <= hi) ==> (lo <= x && x <= hi)
}

/// A randomized material: any metal or Lambertian, or a dielectric whose
/// refraction index lies in `[1, 2]`.
pub open spec fn scene_material(m: Material) -> bool {
    match m {
        Material::Dielectric(d) => ONE as int <= d.refraction_index as int <= 2_000_000,
        Material::Metal(_) => true,
        Material::Lambertian(_) => true,
    }
}

/// A randomized ground shape: a sphere with radius in `[0.1, 4]` or a cube
/// with size in `[0.2, 8]`, its center at the requested ground level and
/// within the given x and z bounds, carrying a `scene_material`.
pub open spec fn scene_shape(
    h: Hitable,
    y_level: int,
    min_x: int,
    max_x: int,
    min_z: int,
    max_z: int,
) -> bool {
    match h {
        Hitable::Sphere(s) => s.center.y as int == y_level && 100_000 <= s.radius as int
            <= 4_000_000 && coord_in(s.center.x as int, min_x, max_x) && coord_in(
            s.center.z as int,
            min_z,
            max_z,
        ) && scene_material(s.material),
        Hitable::Cube(c) => c.center.y as int == y_level && 200_000 <= c.size as int <= 8_000_000
            && coord_in(c.center.x as int, min_x, max_x) && coord_in(c.center.z as int, min_z, max_z)
            && scene_material(c.material),
        Hitable::Plane(_) => false,
    }
}

/// The fixed three-sphere scene, as a model value.
pub open spec fn three_spheres_objects() -> Seq<Hitable> {
    seq![
        Hitable::Sphere(
            Sphere {
                center: Vec3 { x: -1_000_000i64, y: -600_000i64, z: -3_000_000i64 },
                radius: 1_500_000i64,
                material: Material::Lambertian(
                    Lambertian { albedo: Vec3 { x: 400_000i64, y: 400_000i64, z: 400_000i64 } },
                ),
            },
        ),
        Hitable::Sphere(
            Sphere {
                center: Vec3 { x: 0i64, y: 0i64, z: -1_500_000i64 },
                radius: 700_000i64,
                material: Material::Metal(
                    Metal {
                        albedo: Vec3 { x: 1_000_000i64, y: 600_000i64, z: 600_000i64 },
                        fuzz: 200_000i64,
                    },
                ),
            },
        ),
        Hitable::Sphere(
            Sphere {
                center: Vec3 { x: 300_000i64, y: 300_000i64, z: -700_000i64 },
                radius: 180_000i64,
                material: Material::Metal(
                    Metal {
                        albedo: Vec3 { x: 800_000i64, y: 800_000i64, z: 800_000i64 },
                        fuzz: 100_000i64,
                    },
                ),
            },
        ),
    ]
}

/// A random orientation: four uniform components in `[-1, 1]` normalized to
/// a unit quaternion; a degenerate (zero-length) draw falls back to the
/// identity.
fn random_rotation() -> (q: Quat) {
    let x: i64 = fsub(fadd(rand_unit(), rand_unit()), ONE);
    let y: i64 = fsub(fadd(rand_unit(), rand_unit()), ONE);
    let z: i64 = fsub(fadd(rand_unit(), rand_unit()), ONE);
    let w: i64 = fsub(fadd(rand_unit(), rand_unit()), ONE);
    let len: i64 = fsqrt(
        fadd(fadd(fadd(fmul(x, x), fmul(y, y)), fmul(z, z)), fmul(w, w)),
    );
    if len == 0 {
        Quat::identity()
    } else {
        Quat::new(fdiv(x, len), fdiv(y, len), fdiv(z, len), fdiv(w, len))
    }
}

} // verus!
