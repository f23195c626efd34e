use strahl::camera::{Camera, Channel, Mode, PerspectiveCamera};
use strahl::as3dcamera::AS3DCamera;
use strahl::fixed::{Fx, FX_MAX_RAW, FX_ONE};
use strahl::hit::HitInfo;
use strahl::material::{Background, Emissive, Lambertian, Material, MaterialInfo, Metal, Scatter};
use strahl::primitives::{BBox, Plane, Sphere};
use strahl::random::{random_in_unit_disk2, random_range, random_unit};
use strahl::ray::Ray;
use strahl::render::{color, trace, trace_image, trace_image_par, trace_scan_line, RayInfo};
use strahl::scene::Scene;
use strahl::texture::{ConstantTexture, DynamicTexture, DynamicTextureType, Sample, Texture};
use strahl::tonemap::{LinearTonemap, ReinhardTonemap, Tonemap, TonemapOperator, Uncharted2Tonemap};
use strahl::mat::Mat4;
use strahl::quaternion::Quat;
use strahl::vec::Vec4;

fn fx(v: i64) -> Fx {
    Fx::from_int(v)
}

fn fxr(raw: i64) -> Fx {
    Fx::new(raw)
}

fn v3(x: i64, y: i64, z: i64) -> Vec4 {
    Vec4::from3(fx(x), fx(y), fx(z))
}

#[test]
fn fixed_exact_arithmetic() {
    assert_eq!(fx(3).mul(fx(2)).raw, 6 * 65536);
    assert_eq!(fx(7).sub(fx(9)).raw, -2 * 65536);
    assert_eq!(fx(1).div(fx(2)).raw, 32768);
    assert_eq!(fx(4).sqrt().raw, 2 * 65536);
    assert_eq!(fxr(16384).sqrt().raw, 32768); // sqrt(1/4) == 1/2
    assert_eq!(fx(-5).abs().raw, 5 * 65536);
    assert_eq!(fx(3).clamp(fx(0), fx(2)).raw, 2 * 65536);
}

#[test]
fn fixed_saturates_and_divides_by_zero_totally() {
    assert_eq!(Fx::from_int(1 << 40).raw, FX_MAX_RAW);
    assert_eq!(Fx::from_int(-(1 << 40)).raw, -FX_MAX_RAW);
    assert_eq!(fx(5).div(Fx::zero()).raw, 0);
    assert_eq!(Fx::new(i64::MIN).abs().raw, FX_MAX_RAW);
}

#[test]
fn vec_dot_and_cross() {
    let x = v3(1, 0, 0);
    let y = v3(0, 1, 0);
    let z = v3(0, 0, 1);
    assert_eq!(x.dot3(&y).raw, 0);
    assert_eq!(x.dot3(&x).raw, FX_ONE);
    assert_eq!(x.cross3(&y), z);
    assert_eq!(y.cross3(&x), z.neg());
    assert_eq!(v3(2, 3, 4).dot(&v3(5, 6, 7)).raw, (10 + 18 + 28) * 65536);
}

#[test]
fn vec_normalize_exact_axis() {
    let v = v3(0, 0, -4);
    assert_eq!(v.norm3(), v3(0, 0, -1));
    assert_eq!(v.length3().raw, 4 * 65536);
}

// Metal with zero roughness mirrors the incoming direction exactly:
// dot(reflected, normal) == dot(-incoming, normal) on this scenario.
#[test]
fn reflect_mirrors_about_normal() {
    let d = v3(1, -1, 0);
    let n = v3(0, 1, 0);
    let r = d.reflect(&n);
    assert_eq!(r, v3(1, 1, 0));
    assert_eq!(r.dot(&n).raw, d.neg().dot(&n).raw);
}

#[test]
fn sphere_hit_front_face() {
    let s = Sphere::new(v3(0, 0, -1), fxr(32768));
    let ray = Ray::new(v3(0, 0, 0), v3(0, 0, -1));
    let mut out = HitInfo::new();
    assert!(s.hit(&ray, &mut out, Fx::zero(), fx(100)));
    assert_eq!(out.depth.raw, 32768); // t = 1/2
    assert_eq!(out.point, v3(0, 0, 0).add(v3(0, 0, -1).scale(fxr(32768))));
    assert_eq!(out.normal, v3(0, 0, 1));
    assert_eq!(out.u.raw, 0);
    assert_eq!(out.v.raw, 0);
}

// A ray starting on the sphere surface and pointing outward reports no hit.
#[test]
fn sphere_surface_outward_misses() {
    let s = Sphere::new(v3(0, 0, 0), fx(1));
    let ray = Ray::new(v3(1, 0, 0), v3(1, 0, 0));
    let mut out = HitInfo::new();
    assert!(!s.hit(&ray, &mut out, Fx::zero(), fx(100)));
}

// A ray through the sphere's centre: roots at t = 2 and t = 4; the nearer
// root is the one reported.
#[test]
fn sphere_through_center_picks_near_root() {
    let s = Sphere::new(v3(0, 0, 0), fx(1));
    let ray = Ray::new(v3(0, 0, 3), v3(0, 0, -1));
    let mut out = HitInfo::new();
    assert!(s.hit(&ray, &mut out, Fx::zero(), fx(100)));
    assert_eq!(out.depth.raw, 2 * 65536);
    // the far root alone lies in a window past the near one
    let mut out2 = HitInfo::new();
    assert!(s.hit(&ray, &mut out2, fx(3), fx(100)));
    assert_eq!(out2.depth.raw, 4 * 65536);
}

#[test]
fn sphere_uv_ranges() {
    let s = Sphere::new_with_uv(v3(0, 0, -1), fxr(32768));
    let ray = Ray::new(v3(0, 0, 0), v3(0, 0, -1));
    let mut out = HitInfo::new();
    assert!(s.hit(&ray, &mut out, Fx::zero(), fx(100)));
    assert!(out.u.raw >= 0 && out.u.raw <= FX_ONE);
    assert!(out.v.raw >= 0 && out.v.raw <= FX_ONE);
}

#[test]
fn plane_hit_straight_on() {
    let p = Plane::new(v3(0, 0, -2), v3(0, 0, -1));
    let ray = Ray::new(v3(0, 0, 0), v3(0, 0, -1));
    let mut out = HitInfo::new();
    assert!(p.hit(&ray, &mut out, Fx::zero(), fx(100)));
    assert_eq!(out.depth.raw, 2 * 65536);
    assert_eq!(out.normal, v3(0, 0, -1));
    // facing away: no hit
    let back = Ray::new(v3(0, 0, 0), v3(0, 0, 1));
    assert!(!p.hit(&back, &mut out, Fx::zero(), fx(100)));
}

#[test]
fn bbox_hit_axis_aligned() {
    let b = BBox::new(v3(0, 0, -3), v3(1, 1, 1));
    let ray = Ray::new(v3(0, 0, 0), v3(0, 0, -1));
    let mut out = HitInfo::new();
    assert!(b.hit(&ray, &mut out, Fx::zero(), fx(100)));
    assert_eq!(out.depth.raw, 2 * 65536);
    assert_eq!(out.normal, v3(0, 0, 1));
    // a ray that misses the box sideways
    let miss = Ray::new(v3(5, 0, 0), v3(0, 0, -1));
    assert!(!b.hit(&miss, &mut out, Fx::zero(), fx(100)));
}

// The scene-level hit equals the minimum over all primitives; ties keep
// the earlier primitive's material.
#[test]
fn scene_hit_nearest_and_ties() {
    let mut scn = Scene::new();
    let red = scn.add_mat(Lambertian::new(fxr(52429), fxr(19661), fxr(19661)));
    let green = scn.add_mat(Lambertian::new(fxr(19661), fxr(52429), fxr(19661)));
    // farther sphere first, nearer sphere second
    scn.add_prmitive(Sphere::new(v3(0, 0, -5), fx(1)).primitive(red));
    scn.add_prmitive(Sphere::new(v3(0, 0, -2), fx(1)).primitive(green));
    let ray = Ray::new(v3(0, 0, 0), v3(0, 0, -1));
    let mut out = HitInfo::new();
    assert!(scn.hit(&ray, &mut out, Fx::zero(), fx(100)));
    assert_eq!(out.depth.raw, 65536); // the nearer sphere, at t = 1
    assert_eq!(out.material, green);

    // two identical spheres: the first added wins the tie
    let mut scn2 = Scene::new();
    let a = scn2.add_mat(Lambertian::new(fx(1), fx(1), fx(1)));
    let b2 = scn2.add_mat(Lambertian::new(fx(1), fx(1), fx(1)));
    scn2.add_prmitive(Sphere::new(v3(0, 0, -2), fx(1)).primitive(a));
    scn2.add_prmitive(Sphere::new(v3(0, 0, -2), fx(1)).primitive(b2));
    let mut out2 = HitInfo::new();
    assert!(scn2.hit(&ray, &mut out2, Fx::zero(), fx(100)));
    assert_eq!(out2.material, a);
}

#[test]
fn scene_empty_reports_no_hit() {
    let scn = Scene::new();
    let ray = Ray::new(v3(0, 0, 0), v3(0, 0, -1));
    let mut out = HitInfo::new();
    assert!(!scn.hit(&ray, &mut out, Fx::zero(), fx(100)));
}

#[test]
fn emissive_scatter_terminates_with_emission() {
    let m = Emissive::new(fx(2), fx(3), fx(4));
    let mut ray = Ray::new(v3(0, 0, 0), v3(0, 0, -1));
    let hit = HitInfo::new();
    let mut out = MaterialInfo::new();
    let cont = m.scatter(&mut ray, &hit, &mut out);
    assert!(!cont);
    assert_eq!(out.emission, v3(2, 3, 4));
    assert_eq!(out.attenuation, Vec4::one());
}

#[test]
fn metal_zero_roughness_is_perfect_mirror() {
    let m = Metal::new(fx(1), fx(1), fx(1), Fx::zero());
    let mut ray = Ray::new(v3(0, 0, 0), v3(1, -1, 0));
    let mut hit = HitInfo::new();
    hit.point = v3(1, 0, 0);
    hit.normal = v3(0, 1, 0);
    let mut out = MaterialInfo::new();
    let cont = m.scatter(&mut ray, &hit, &mut out);
    assert_eq!(ray.direction, v3(1, 1, 0));
    assert_eq!(ray.origin, v3(1, 0, 0));
    assert!(cont); // dot((1,1,0), (0,1,0)) > 0
    // mirrored: dot(out, n) == dot(-in, n)
    assert_eq!(ray.direction.dot(&hit.normal).raw, 65536);
}

#[test]
fn metal_absorbs_when_reflected_into_surface() {
    let m = Metal::new(fx(1), fx(1), fx(1), Fx::zero());
    // incoming along the normal: reflection points back against it
    let mut ray = Ray::new(v3(0, 0, 0), v3(0, 1, 0));
    let mut hit = HitInfo::new();
    hit.normal = v3(0, 1, 0);
    let mut out = MaterialInfo::new();
    let cont = m.scatter(&mut ray, &hit, &mut out);
    assert_eq!(ray.direction, v3(0, -1, 0));
    assert!(!cont);
}

#[test]
fn lambertian_scatter_always_continues() {
    let m = Lambertian::new(fxr(52429), fxr(19661), fxr(19661));
    let mut ray = Ray::new(v3(0, 0, 0), v3(0, 0, -1));
    let mut hit = HitInfo::new();
    hit.point = v3(0, 0, -1);
    hit.normal = v3(0, 0, 1);
    let mut out = MaterialInfo::new();
    let cont = m.scatter(&mut ray, &hit, &mut out);
    assert!(cont);
    assert_eq!(ray.origin, v3(0, 0, -1));
    assert_eq!(out.attenuation, Vec4::from3(fxr(52429), fxr(19661), fxr(19661)));
    assert_eq!(out.emission, Vec4::zero());
}

#[test]
fn background_emission_straight_up() {
    let m = Background::new(Vec4::from3(fxr(32768), fxr(45875), fx(1)), fx(1));
    let mut ray = Ray::new(v3(0, 0, 0), v3(0, 1, 0));
    let hit = HitInfo::new();
    let mut out = MaterialInfo::new();
    let cont = m.scatter(&mut ray, &hit, &mut out);
    assert!(!cont);
    // t == 1 at the zenith: the emission is exactly the sky colour
    assert_eq!(out.emission.x.raw, 32768);
    assert_eq!(out.emission.y.raw, 45875);
    assert_eq!(out.emission.z.raw, 65536);
}

// Accumulation of a single bounce yields its emission; of two bounces,
// a0 * e1 + e0.
#[test]
fn accumulate_single_and_pair() {
    let mut ri = RayInfo::new();
    let mut b0 = MaterialInfo::new();
    b0.attenuation = Vec4::splat(fxr(32768)); // 1/2
    b0.emission = v3(1, 0, 2);
    ri.add_mat(&b0);
    assert_eq!(ri.accumulate(), v3(1, 0, 2));

    let mut b1 = MaterialInfo::new();
    b1.emission = v3(4, 4, 4);
    ri.add_mat(&b1);
    // a0 * e1 + e0 == (2, 2, 2) + (1, 0, 2)
    assert_eq!(ri.accumulate(), v3(3, 2, 4));
}

#[test]
fn accumulate_empty_is_black() {
    let ri = RayInfo::new();
    assert_eq!(ri.accumulate(), Vec4::zero());
}

#[test]
fn ray_info_depth_caps_at_ten() {
    let mut ri = RayInfo::new();
    let b = MaterialInfo::new();
    for _ in 0..15 {
        ri.add_mat(&b);
    }
    assert_eq!(ri.depth, 10);
    ri.reset(&Ray::invalid());
    assert_eq!(ri.depth, 0);
}

#[test]
fn trace_miss_records_background() {
    let scn = Scene::new();
    let mut ri = RayInfo::new();
    ri.reset(&Ray::new(v3(0, 0, 0), v3(0, 1, 0)));
    let terminated = trace(&mut ri, &scn, false);
    assert!(terminated);
    assert_eq!(ri.depth, 1);
    // the default sky colour at the zenith
    let c = ri.accumulate();
    assert_eq!(c.x.raw, 32768);
    assert_eq!(c.y.raw, 45875);
    assert_eq!(c.z.raw, 65536);
}

fn center_camera() -> PerspectiveCamera {
    PerspectiveCamera::new(
        v3(0, 0, 0),
        v3(0, 0, -1),
        v3(0, 1, 0),
        fx(1),
        2,
        2,
        Fx::zero(),
        fx(1),
        1,
    )
}

#[test]
fn perspective_center_ray_points_forward() {
    let cam = center_camera();
    let ray = cam.get_ray(fx(1), fx(1), Channel::All);
    assert_eq!(ray.origin, v3(0, 0, 0));
    assert_eq!(ray.direction, v3(0, 0, -1));
    assert_eq!(cam.mode(), Mode::Combined);
    assert_eq!(cam.width(), 2);
    assert_eq!(cam.height(), 2);
    assert_eq!(cam.sample_count(), 1);
}

// End-to-end: a unit-sphere scene under a sky background; the ray through
// the image centre hits the sphere and yields a non-negative colour whose
// red channel exceeds its blue channel (the reddish albedo).
#[test]
fn end_to_end_red_sphere() {
    let mut scn = Scene::new();
    let red = scn.add_mat(Lambertian::new(fxr(52429), fxr(19661), fxr(19661)));
    scn.add_prmitive(Sphere::new(v3(0, 0, -1), fxr(32768)).primitive(red));

    let cam = center_camera();
    let mut ri = RayInfo::new();
    ri.reset(&cam.get_ray(fx(1), fx(1), Channel::All));
    for _ in 0..10 {
        if trace(&mut ri, &scn, false) {
            break;
        }
    }
    assert!(ri.depth >= 2); // the sphere bounce, then the sky
    let c = ri.accumulate();
    assert!(c.x.raw >= 0 && c.y.raw >= 0 && c.z.raw >= 0);
    assert!(c.x.raw > c.z.raw);
}

// End-to-end: an empty scene with a flat white background returns exactly
// the miss material's emission for every pixel.
#[test]
fn end_to_end_empty_scene_uniform() {
    let mut scn = Scene::new();
    let white = scn.add_mat(Background::new(Vec4::from3(fx(1), fx(1), fx(1)), fxr(49152)));
    scn.set_miss_mat(white);
    let cam = center_camera();
    let mut rc: u32 = 0;
    let img = trace_image(&cam, &scn, &mut rc);
    assert_eq!(img.len(), 2);
    for row in &img {
        assert_eq!(row.len(), 2);
        for px in row {
            assert_eq!(px.x.raw, 49152);
            assert_eq!(px.y.raw, 49152);
            assert_eq!(px.z.raw, 49152);
        }
    }
    assert!(rc >= 4);
}

#[test]
fn parallel_render_matches_layout() {
    let mut scn = Scene::new();
    let red = scn.add_mat(Lambertian::new(fxr(52429), fxr(19661), fxr(19661)));
    scn.add_prmitive(Sphere::new(v3(0, 0, -1), fxr(32768)).primitive(red));
    let cam = center_camera();
    let img = trace_image_par(&cam, &scn);
    assert_eq!(img.len(), 2);
    for row in &img {
        assert_eq!(row.len(), 2);
        for px in row {
            assert!(px.x.raw >= 0 && px.y.raw >= 0 && px.z.raw >= 0);
        }
    }
}

#[test]
fn scan_line_has_width_entries() {
    let scn = Scene::new();
    let cam = center_camera();
    let mut rc: u32 = 0;
    let line = trace_scan_line(&cam, &scn, 0, &mut rc);
    assert_eq!(line.len(), 2);
}

#[test]
fn color_averages_samples() {
    let mut scn = Scene::new();
    let white = scn.add_mat(Background::new(Vec4::from3(fx(1), fx(1), fx(1)), fxr(49152)));
    scn.set_miss_mat(white);
    let cam = PerspectiveCamera::new(
        v3(0, 0, 0),
        v3(0, 0, -1),
        v3(0, 1, 0),
        fx(1),
        2,
        2,
        Fx::zero(),
        fx(1),
        4,
    );
    let mut ri = RayInfo::new();
    let mut rc: u32 = 0;
    let c = color(&scn, &cam, 0, 0, &mut ri, &mut rc);
    assert_eq!(c.x.raw, 49152);
    assert_eq!(c.y.raw, 49152);
    assert_eq!(c.z.raw, 49152);
    assert_eq!(rc, 4);
}

#[test]
fn reinhard_halves_unit_input() {
    let t = ReinhardTonemap::new(fx(1));
    let c = t.tonemap(&v3(1, 1, 1));
    // 1 / (1 + 1) == 1/2, then the gamma-2 curve: sqrt(1/2)
    assert_eq!(c.x.raw, 46340);
    assert_eq!(c.y.raw, 46340);
    assert_eq!(c.z.raw, 46340);
}

// Raising the exposure never darkens a Reinhard-tonemapped channel.
#[test]
fn reinhard_monotone_in_exposure() {
    let input = Vec4::from3(fxr(12345), fxr(300000), fx(3));
    let lo = ReinhardTonemap::new(fxr(40000)).tonemap(&input);
    let hi = ReinhardTonemap::new(fxr(90000)).tonemap(&input);
    assert!(lo.x.raw <= hi.x.raw);
    assert!(lo.y.raw <= hi.y.raw);
    assert!(lo.z.raw <= hi.z.raw);
}

#[test]
fn linear_tonemap_is_gamma_only() {
    let t = LinearTonemap::new();
    assert_eq!(t.tonemap(&v3(1, 1, 1)), v3(1, 1, 1));
    assert_eq!(t.tonemap(&v3(4, 4, 4)), v3(2, 2, 2));
}

#[test]
fn uncharted2_maps_black_near_black() {
    let t = Uncharted2Tonemap::new();
    let c = t.tonemap(&Vec4::zero());
    assert!(c.x.raw.abs() < 65536);
    let op: TonemapOperator = t.operator();
    let c2 = op.tonemap(&Vec4::zero());
    assert_eq!(c, c2);
}

#[test]
fn random_samplers_stay_in_bounds() {
    for _ in 0..50 {
        let u = random_unit();
        assert!(u.raw >= 0 && u.raw < FX_ONE);
        let r = random_range(fx(-2), fx(3));
        assert!(r.raw >= -2 * 65536 && r.raw <= 3 * 65536);
        let (x, y) = random_in_unit_disk2();
        let q = x.mul(x).add(y.mul(y));
        assert!(q.raw <= FX_ONE);
    }
}

#[test]
fn texture_lookup_picks_pixel() {
    let pixels = vec![v3(1, 0, 0), v3(0, 1, 0), v3(0, 0, 1), v3(1, 1, 1)];
    let tex = DynamicTexture::new(pixels, 2, 2, DynamicTextureType::Linear).texture();
    let mut hit = HitInfo::new();
    hit.u = Fx::zero();
    hit.v = Fx::zero();
    assert_eq!(tex.sample(&hit), v3(1, 0, 0));
    hit.u = fx(1);
    hit.v = fx(1);
    assert_eq!(tex.sample(&hit), v3(1, 1, 1));
    hit.u = fx(1);
    hit.v = Fx::zero();
    assert_eq!(tex.sample(&hit), v3(0, 1, 0));
}

#[test]
fn constant_texture_ignores_coordinates() {
    let tex = ConstantTexture::from(fx(2), fx(3), fx(4)).texture();
    let mut hit = HitInfo::new();
    hit.u = fxr(12345);
    hit.v = fxr(54321);
    assert_eq!(tex.sample(&hit), v3(2, 3, 4));
}

#[test]
fn scene_bookkeeping() {
    let mut scn = Scene::new();
    assert_eq!(scn.miss, 0);
    let a = scn.add_mat(Emissive::new(fx(1), fx(1), fx(1)));
    assert_eq!(a, 1);
    scn.set_miss_mat(a);
    match scn.get_miss_mat() {
        Material::Emissive { .. } => {}
        _ => panic!("miss material should be the emissive one"),
    }
    let (prim_id, mat_id) = scn.set_envmap(ConstantTexture::from(fx(1), fx(1), fx(1)).texture());
    assert_eq!(prim_id, 0);
    assert_eq!(mat_id, 2);
}

#[test]
fn as3d_camera_views_are_centred() {
    let cam = AS3DCamera::new(
        v3(0, 0, 0),
        v3(0, 0, -1),
        v3(0, 1, 0),
        fx(1),
        4,
        4,
        fx(1),
        1,
        fx(1),
        2,
        fx(2),
        fx(1),
    );
    assert_eq!(cam.mode(), Mode::Separate);
    assert_eq!(cam.pos.len(), 2);
    // two views one step apart, centred on the base origin
    assert_eq!(cam.pos[0], Vec4::splat(fxr(-32768)));
    assert_eq!(cam.pos[1], Vec4::splat(fxr(32768)));
    assert_eq!(cam.lenticular_slope.raw, 2 * 65536);
    let ray = cam.get_ray(fx(1), fx(1), Channel::R);
    // selector 1*3 + 1*2 + 4 + 1 == 10, so view 10 % 2 == 0 is used
    assert_eq!(ray.origin, cam.pos[0]);
}

#[test]
fn normal_mode_records_shaded_normal() {
    let mut scn = Scene::new();
    let red = scn.add_mat(Lambertian::new(fx(1), fx(1), fx(1)));
    scn.add_prmitive(Sphere::new(v3(0, 0, -1), fxr(32768)).primitive(red));
    let mut ri = RayInfo::new();
    ri.reset(&Ray::new(v3(0, 0, 0), v3(0, 0, -1)));
    let terminated = trace(&mut ri, &scn, true);
    assert!(terminated);
    assert_eq!(ri.depth, 1);
    // the front-face normal (0, 0, 1) shaded to (1/2, 1/2, 1)
    let c = ri.mat_info[0].attenuation;
    assert_eq!(c.x.raw, 32768);
    assert_eq!(c.y.raw, 32768);
    assert_eq!(c.z.raw, 65536);
}

#[test]
fn mat4_identity_behaves() {
    let i = Mat4::new();
    let t = i.transpose();
    assert!(i == t);
    let p = i.mul(Mat4::new());
    assert!(p == Mat4::new());
    let v = Vec4::new(fx(1), fx(2), fx(3), fx(4));
    assert_eq!(i.mul_vec(v), v);
}

#[test]
fn quat_identity_rotation() {
    let q = Quat::new();
    let v = v3(3, -2, 5);
    assert_eq!(q.rotate_unit(&v), v);
    assert_eq!(q.conjugate(), Quat::new());
    let ray = Ray::new(v3(1, 2, 3), v3(0, 0, -1));
    let r2 = ray.rotate(&q);
    assert_eq!(r2.origin, ray.origin);
    assert_eq!(r2.direction, ray.direction);
}

#[test]
fn quat_conjugate_flips_imaginary() {
    let q = Quat::from_vec(Vec4::new(fx(1), fx(-2), fx(3), fx(4)));
    let c = q.conjugate();
    assert_eq!(c.q, Vec4::new(fx(-1), fx(2), fx(-3), fx(4)));
}

#[test]
fn bbox_hit_from_inside() {
    let b = BBox::new(v3(0, 0, 0), v3(1, 1, 1));
    let ray = Ray::new(v3(0, 0, 0), v3(0, 0, -1));
    let mut out = HitInfo::new();
    assert!(b.hit(&ray, &mut out, Fx::zero(), fx(100)));
    // the back face of the slab, one unit away
    assert_eq!(out.depth.raw, 65536);
}

#[test]
fn sphere_missed_sideways() {
    let s = Sphere::new(v3(0, 0, -5), fx(1));
    let ray = Ray::new(v3(3, 0, 0), v3(0, 0, -1));
    let mut out = HitInfo::new();
    assert!(!s.hit(&ray, &mut out, Fx::zero(), fx(100)));
    // the record is untouched on a miss
    assert_eq!(out, HitInfo::new());
}

// A separating camera issues one full sampling pass per colour channel and
// assembles the result component-wise; on a uniform white background every
// channel still lands on exactly the background strength.
#[test]
fn separate_mode_assembles_channels() {
    let mut scn = Scene::new();
    let white = scn.add_mat(Background::new(Vec4::from3(fx(1), fx(1), fx(1)), fxr(49152)));
    scn.set_miss_mat(white);
    let cam = AS3DCamera::new(
        v3(0, 0, 0),
        v3(0, 0, -1),
        v3(0, 1, 0),
        fx(1),
        2,
        2,
        fx(1),
        3,
        fx(1),
        2,
        fx(2),
        fx(1),
    );
    let mut ri = RayInfo::new();
    let mut rc: u32 = 0;
    let c = color(&scn, &cam, 1, 1, &mut ri, &mut rc);
    assert_eq!(c.x.raw, 49152);
    assert_eq!(c.y.raw, 49152);
    assert_eq!(c.z.raw, 49152);
    // three passes of three samples, one bounce each
    assert_eq!(rc, 9);
}
