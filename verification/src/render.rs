//! The path integrator and the render driver: per-bounce state, the
//! trace step, per-pixel sampling, and per-scanline image assembly.

use crate::camera::{Camera, Channel, Mode};
use crate::fixed::{fx_add_v, fx_clip, fx_mul_v, lemma_fx_div_nonneg, Fx, FX_ONE};
use crate::hit::{HitInfo, HitV};
use crate::material::{
    lemma_scatter_nonneg, MaterialInfo, Scatter,
};
use crate::ray::Ray;
use crate::scene::{
    lemma_scene_best_nearest, scene_hit_v, scene_nonneg, scene_wf, Scene,
};
use crate::vec::{
    lemma_v4_mul_nonneg, v4, v4_add, v4_div_scalar, v4_mul, v4_nonneg, v4_scale, v4_splat, v4_zero,
    Vec4, V4,
};
use rayon::iter::{IndexedParallelIterator, IntoParallelIterator, ParallelIterator};
use vstd::prelude::*;

verus! {

/// Paths are cut off after this many surface interactions.
pub const MAX_DEPTH: u32 = 10;

/// Per-sample scratch: the current ray and the ordered bounce list.
pub struct RayInfo {
    pub depth: u32,
    pub ray: Ray,
    pub mat_info: Vec<MaterialInfo>,
}

pub open spec fn ray_info_wf(ri: RayInfo) -> bool {
    ri.depth as int == ri.mat_info@.len() && ri.mat_info@.len() <= 10
}

/// Radiance of an ordered bounce list, folded from the last bounce
/// backward: `L = e0 + a0 (e1 + a1 (e2 + ...))`. An empty list is black.
pub open spec fn accum_v(s: Seq<MaterialInfo>) -> V4
    decreases s.len(),
{
    if s.len() == 0 {
        v4_zero()
    } else if s.len() == 1 {
        s[0]@.emission
    } else {
        v4_add(v4_mul(s[0]@.attenuation, accum_v(s.drop_first())), s[0]@.emission)
    }
}

pub open spec fn records_nonneg(s: Seq<MaterialInfo>) -> bool {
    forall|i: int|
        0 <= i < s.len() ==> v4_nonneg(#[trigger] s[i]@.attenuation) && v4_nonneg(s[i]@.emission)
}

/// Folding non-negative bounces yields a non-negative radiance.
pub proof fn lemma_accum_nonneg(s: Seq<MaterialInfo>)
    requires
        records_nonneg(s),
    ensures
        v4_nonneg(accum_v(s)),
    decreases s.len(),
{
    if s.len() == 0 {
    } else if s.len() == 1 {
        assert(v4_nonneg(s[0]@.attenuation) && v4_nonneg(s[0]@.emission));
    } else {
        assert forall|i: int| 0 <= i < s.drop_first().len() implies v4_nonneg(
            #[trigger] s.drop_first()[i]@.attenuation,
        ) && v4_nonneg(s.drop_first()[i]@.emission) by {
            assert(s.drop_first()[i] == s[i + 1]);
        }
        lemma_accum_nonneg(s.drop_first());
        lemma_v4_mul_nonneg(s[0]@.attenuation, accum_v(s.drop_first()));
    }
}

/// A path of one recorded bounce yields exactly that bounce's emission —
/// the background/terminal case of the radiance fold.
pub proof fn lemma_accum_single(b0: MaterialInfo)
    ensures
        accum_v(seq![b0]) == b0@.emission,
{
}

/// A path of two recorded bounces yields `a0 * e1 + e0`: the second
/// bounce's emission attenuated once, plus the first bounce's emission.
pub proof fn lemma_accum_pair(b0: MaterialInfo, b1: MaterialInfo)
    ensures
        accum_v(seq![b0, b1]) == v4_add(v4_mul(b0@.attenuation, b1@.emission), b0@.emission),
{
    assert(seq![b0, b1].drop_first() =~= seq![b1]);
    lemma_accum_single(b1);
    assert(seq![b0, b1].len() == 2);
    assert(seq![b0, b1][0] == b0);
}

impl RayInfo {
    pub fn new() -> (r: RayInfo)
        ensures
            ray_info_wf(r),
            r.depth == 0,
            r.mat_info@.len() == 0,
            r.ray@ == (crate::ray::RayV { origin: v4_zero(), direction: v4_zero() }),
    {
        RayInfo { ray: Ray::invalid(), mat_info: Vec::new(), depth: 0 }
    }

    /// Record one bounce; beyond the depth cap the record is dropped.
    pub fn add_mat(&mut self, mat: &MaterialInfo)
        ensures
            ray_info_wf(*old(self)) ==> ray_info_wf(*final(self)),
            final(self).ray == old(self).ray,
            old(self).depth < 10 ==> final(self).mat_info@ == old(self).mat_info@.push(*mat)
                && final(self).depth == old(self).depth + 1,
            old(self).depth >= 10 ==> *final(self) == *old(self),
    {
        if self.depth < 10 {
            self.mat_info.push(*mat);
            self.depth = self.depth + 1;
        }
    }

    /// Fold the bounce list into the sample's radiance.
    pub fn accumulate(&self) -> (c: Vec4)
        requires
            ray_info_wf(*self),
        ensures
            c@ == accum_v(self.mat_info@),
    {
        if self.depth == 0 {
            return Vec4::zero();
        }
        let n = self.mat_info.len();
        let mut col = self.mat_info[n - 1].emission;
        proof {
            assert(self.mat_info@.subrange(n - 1, n as int).len() == 1);
            assert(self.mat_info@.subrange(n - 1, n as int)[0] == self.mat_info@[n - 1]);
        }
        let mut i: usize = n - 1;
        while i > 0
            invariant
                0 <= i < n,
                n == self.mat_info@.len(),
                col@ == accum_v(self.mat_info@.subrange(i as int, n as int)),
            decreases i,
        {
            i = i - 1;
            let cur = self.mat_info[i];
            col = cur.attenuation.mul(col).add(cur.emission);
            proof {
                let s = self.mat_info@.subrange(i as int, n as int);
                assert(s.len() >= 2);
                assert(s.drop_first() =~= self.mat_info@.subrange(i + 1, n as int));
                assert(s[0] == self.mat_info@[i as int]);
            }
        }
        proof {
            assert(self.mat_info@.subrange(0, n as int) =~= self.mat_info@);
        }
        col
    }

    /// Make the scratch ready for a fresh sample.
    pub fn reset(&mut self, ray: &Ray)
        ensures
            ray_info_wf(*final(self)),
            final(self).ray == *ray,
            final(self).depth == 0,
            final(self).mat_info@.len() == 0,
    {
        self.ray = *ray;
        self.depth = 0;
        self.mat_info = Vec::new();
    }
}

/// The hit record handed to the miss material: all fields zero.
pub open spec fn empty_hit_v() -> HitV {
    HitV { point: v4_zero(), normal: v4_zero(), depth: 0, u: 0, v: 0 }
}

/// The bounce `out` was appended (dropped once the depth cap is reached).
pub open spec fn bounce_appended(pre: RayInfo, post: RayInfo, out: MaterialInfo) -> bool {
    if pre.depth < 10 {
        post.mat_info@ == pre.mat_info@.push(out) && post.depth == pre.depth + 1
    } else {
        post.mat_info@ == pre.mat_info@ && post.depth == pre.depth
    }
}

/// After a miss, the miss material scattered on an empty hit record and its
/// bounce was appended.
pub open spec fn trace_miss_post(scn: Scene, pre: RayInfo, post: RayInfo) -> bool {
    exists|hi: HitInfo, out: MaterialInfo, cont: bool|
        hi@ == empty_hit_v() && hi.material == 0 && #[trigger] scn.materials@[
            scn.miss as int
        ].scatter_rel(pre.ray, hi, post.ray, out, cont) && bounce_appended(pre, post, out)
}

/// After a hit, the struck primitive's material scattered on the hit record
/// `h` and its bounce was appended; the step reports termination exactly
/// when the material did not continue the path.
pub open spec fn trace_hit_post(
    scn: Scene,
    pre: RayInfo,
    post: RayInfo,
    h: HitV,
    m: u32,
    terminated: bool,
) -> bool {
    exists|hi: HitInfo, out: MaterialInfo, cont: bool|
        hi@ == h && hi.material == m && #[trigger] scn.materials@[m as int].scatter_rel(
            pre.ray,
            hi,
            post.ray,
            out,
            cont,
        ) && bounce_appended(pre, post, out) && terminated == !cont
}

/// The colour of the normal-visualisation mode: the unit normal remapped
/// from `[-1, 1]` to `[0, 1]` per component.
pub open spec fn normal_shade_v(n: V4) -> V4 {
    v4_scale(32768, v4_add(n, v4_splat(FX_ONE as int)))
}

/// After a hit in normal mode, the shaded normal was appended as the
/// bounce's attenuation and the ray is untouched.
pub open spec fn trace_normal_post(pre: RayInfo, post: RayInfo, h: HitV) -> bool {
    exists|out: MaterialInfo|
        out@.attenuation == normal_shade_v(h.normal) && out@.emission == v4_zero()
            && #[trigger] bounce_appended(pre, post, out) && post.ray == pre.ray
}

/// One step of the path integrator: intersect the current ray against the
/// scene within `(0, 100)`, scatter at the nearest hit (or the miss
/// material), record the bounce, and report whether the path terminated.
pub fn trace(r: &mut RayInfo, scn: &Scene, normal: bool) -> (terminated: bool)
    requires
        scene_wf(*scn),
        ray_info_wf(*old(r)),
    ensures
        ray_info_wf(*final(r)),
        match scene_hit_v(*scn, old(r).ray@, 0, 6553600) {
            Some(p) => if normal {
                terminated && trace_normal_post(*old(r), *final(r), p.0)
            } else {
                trace_hit_post(*scn, *old(r), *final(r), p.0, p.1, terminated)
            },
            None => terminated && trace_miss_post(*scn, *old(r), *final(r)),
        },
{
    let mut hit = HitInfo::new();
    let mut mat_info = MaterialInfo::new();

    if scn.hit(&r.ray, &mut hit, Fx::zero(), Fx::from_int(100)) {
        if !normal {
            proof {
                lemma_scene_best_nearest(
                    scn.objects@,
                    r.ray@,
                    0,
                    6553600,
                    scn.objects@.len() as int,
                );
            }
            let scattered = scn.get_mat(hit.material).scatter(&mut r.ray, &hit, &mut mat_info);
            r.add_mat(&mat_info);
            proof {
                let p = scene_hit_v(*scn, old(r).ray@, 0, 6553600).unwrap();
                assert(scn.materials@[p.1 as int].scatter_rel(
                    old(r).ray,
                    hit,
                    r.ray,
                    mat_info,
                    scattered,
                ));
                assert(trace_hit_post(*scn, *old(r), *r, p.0, p.1, !scattered));
            }
            !scattered
        } else {
            mat_info.attenuation = hit.normal.add(Vec4::splat(Fx::one())).scale(Fx::new(32768));
            r.add_mat(&mat_info);
            proof {
                assert(bounce_appended(*old(r), *r, mat_info));
                let p = scene_hit_v(*scn, old(r).ray@, 0, 6553600).unwrap();
                assert(trace_normal_post(*old(r), *r, p.0));
            }
            true
        }
    } else {
        let cont = scn.get_miss_mat().scatter(&mut r.ray, &hit, &mut mat_info);
        r.add_mat(&mat_info);
        proof {
            assert(scn.materials@[scn.miss as int].scatter_rel(
                old(r).ray,
                hit,
                r.ray,
                mat_info,
                cont,
            ));
            assert(trace_miss_post(*scn, *old(r), *r));
        }
        true
    }
}

/// A scene without primitives never reports a hit.
pub proof fn lemma_scene_hit_empty(scn: Scene, r: crate::ray::RayV, min: int, max: int)
    requires
        scn.objects@.len() == 0,
    ensures
        scene_hit_v(scn, r, min, max) is None,
{
}

/// On an empty scene, one integrator step from a fresh path records
/// exactly one bounce — the miss material's — and the folded radiance is
/// exactly that background's emission for the traced ray.
pub proof fn lemma_empty_scene_radiance(
    scn: Scene,
    pre: RayInfo,
    post: RayInfo,
    bg: crate::material::Background,
)
    requires
        scn.objects@.len() == 0,
        scn.materials@[scn.miss as int] == (crate::material::Material::Background { mat: bg }),
        pre.depth == 0,
        pre.mat_info@.len() == 0,
        trace_miss_post(scn, pre, post),
    ensures
        scene_hit_v(scn, pre.ray@, 0, 6553600) is None,
        accum_v(post.mat_info@) == crate::material::background_emission_v(
            crate::texture::Sample::sample_v(&bg.color, 0, 0),
            bg.strength@,
            pre.ray.direction@,
            0,
            0,
        ),
{
    let (hi, out, cont) = choose|hi: HitInfo, out: MaterialInfo, cont: bool|
        hi@ == empty_hit_v() && hi.material == 0 && #[trigger] scn.materials@[
            scn.miss as int
        ].scatter_rel(pre.ray, hi, post.ray, out, cont) && bounce_appended(pre, post, out);
    assert(post.mat_info@ =~= seq![out]);
    lemma_accum_single(out);
}

/// For a background that samples to pure white, the gradient mixes to
/// exactly one, so the emission is exactly the strength in each colour
/// channel, whatever the ray's direction.
proof fn lemma_white_background_emission(sky: V4, strength: int, dir: V4)
    requires
        sky.x == FX_ONE,
        sky.y == FX_ONE,
        sky.z == FX_ONE,
        0 <= strength <= crate::fixed::FX_MAX_RAW,
    ensures
        crate::material::background_emission_v(sky, strength, dir, 0, 0).x == strength,
        crate::material::background_emission_v(sky, strength, dir, 0, 0).y == strength,
        crate::material::background_emission_v(sky, strength, dir, 0, 0).z == strength,
{
    let t = crate::material::background_t_v(dir);
    assert(0 <= t <= FX_ONE);
    assert(fx_mul_v(t, FX_ONE as int) == t) by {
        vstd::arithmetic::div_mod::lemma_div_by_multiple(t, 65536);
    }
    assert(fx_mul_v(strength, FX_ONE as int) == strength) by {
        vstd::arithmetic::div_mod::lemma_div_by_multiple(strength, 65536);
    }
}

/// Summing a list of colours whose channels all equal the same constant
/// gives the constant times the list's length (no saturation within range).
proof fn lemma_radiance_sum_const(vals: Seq<V4>, sx: int)
    requires
        0 <= sx,
        vals.len() * sx <= crate::fixed::FX_MAX_RAW,
        forall|i: int|
            0 <= i < vals.len() ==> (#[trigger] vals[i]).x == sx && vals[i].y == sx && vals[i].z
                == sx,
    ensures
        radiance_sum_v(vals).x == vals.len() * sx,
        radiance_sum_v(vals).y == vals.len() * sx,
        radiance_sum_v(vals).z == vals.len() * sx,
    decreases vals.len(),
{
    if vals.len() > 0 {
        let pre = vals.drop_last();
        assert(forall|i: int|
            0 <= i < pre.len() ==> (#[trigger] pre[i]).x == sx && pre[i].y == sx && pre[i].z
                == sx) by {
            assert(forall|i: int| 0 <= i < pre.len() ==> #[trigger] pre[i] == vals[i]);
        }
        assert(pre.len() * sx <= vals.len() * sx && (pre.len() as int) * sx + sx == vals.len() * sx)
            by (nonlinear_arith)
            requires
                pre.len() + 1 == vals.len(),
                0 <= sx;
        lemma_radiance_sum_const(pre, sx);
        assert(vals.last().x == sx);
    }
}

/// One sample on an empty scene under a white background: the walk stops
/// at its first step with the miss bounce, whose emission is exactly the
/// strength in each colour channel.
proof fn lemma_empty_scene_sample_white<C: Camera>(
    scn: Scene,
    cam: C,
    bg: crate::material::Background,
    x: u32,
    y: u32,
    val: V4,
    bounces: u32,
)
    requires
        scn.objects@.len() == 0,
        scn.materials@[scn.miss as int] == (crate::material::Material::Background { mat: bg }),
        crate::texture::Sample::sample_v(&bg.color, 0, 0).x == FX_ONE,
        crate::texture::Sample::sample_v(&bg.color, 0, 0).y == FX_ONE,
        crate::texture::Sample::sample_v(&bg.color, 0, 0).z == FX_ONE,
        0 <= bg.strength@ <= crate::fixed::FX_MAX_RAW,
        sample_rel(scn, cam, x, y, Channel::All, val, bounces),
    ensures
        val.x == bg.strength@,
        val.y == bg.strength@,
        val.z == bg.strength@,
{
    let (start, post) = choose|start: RayInfo, post: RayInfo|
        #![trigger path_rel(scn, start, post, 10)]
        {
            &&& jittered_start_rel(cam, x, y, Channel::All, start)
            &&& path_rel(scn, start, post, 10)
            &&& val == accum_v(post.mat_info@)
            &&& bounces == post.depth
        };
    let (jx, jy) = choose|jx: int, jy: int|
        #![trigger fx_mul_v(jx, 32768), fx_mul_v(jy, 32768)]
        {
            &&& fx_add_v(fx_mul_v(jx, jx), fx_mul_v(jy, jy)) <= FX_ONE
            &&& -FX_ONE <= jx <= FX_ONE
            &&& -FX_ONE <= jy <= FX_ONE
            &&& start.depth == 0
            &&& start.mat_info@.len() == 0
            &&& start.ray@ == cam.ray_v(
                fx_add_v(fx_clip((x as int) * 65536), fx_mul_v(jx, 32768)),
                fx_add_v(fx_clip((y as int) * 65536), fx_mul_v(jy, 32768)),
                Channel::All,
            )
        };
    lemma_scene_hit_empty(scn, start.ray@, 0, 6553600);
    let (mid, term) = choose|mid: RayInfo, term: bool|
        #[trigger] trace_step_rel(scn, start, mid, term) && (if term {
            post == mid
        } else {
            path_rel(scn, mid, post, 9)
        });
    assert(term);
    assert(trace_miss_post(scn, start, post));
    lemma_empty_scene_radiance(scn, start, post, bg);
    lemma_white_background_emission(
        crate::texture::Sample::sample_v(&bg.color, 0, 0),
        bg.strength@,
        start.ray.direction@,
    );
}

/// End-to-end miss behaviour: on an empty scene whose miss material is a
/// background sampling to pure white, every pixel value the combined-mode
/// renderer can produce is exactly the background strength in each colour
/// channel — each sample's first step records the miss bounce, the white
/// gradient mixes to exactly one, and averaging equal samples is exact.
#[verifier::rlimit(100)]
#[verifier::spinoff_prover]
pub proof fn lemma_empty_scene_pixel_exact<C: Camera>(
    scn: Scene,
    cam: C,
    bg: crate::material::Background,
    x: u32,
    y: u32,
    c: V4,
)
    requires
        scn.objects@.len() == 0,
        scn.materials@[scn.miss as int] == (crate::material::Material::Background { mat: bg }),
        crate::texture::Sample::sample_v(&bg.color, 0, 0).x == FX_ONE,
        crate::texture::Sample::sample_v(&bg.color, 0, 0).y == FX_ONE,
        crate::texture::Sample::sample_v(&bg.color, 0, 0).z == FX_ONE,
        0 <= bg.strength@,
        bg.strength@ * cam.samples_v() <= crate::fixed::FX_MAX_RAW,
        1 <= cam.samples_v() <= 0x80_0000,
        cam.mode_v() == Mode::Combined,
        pixel_rel(scn, cam, x, y, c),
    ensures
        c.x == bg.strength@,
        c.y == bg.strength@,
        c.z == bg.strength@,
{
    let strength = bg.strength@;
    let n = cam.samples_v() as int;
    let (rc0, rc1) = choose|rc0: int, rc1: int|
        #[trigger] pass_rel(scn, cam, x, y, Channel::All, c, rc0, rc1);
    let (vals, bounces) = choose|vals: Seq<V4>, bounces: Seq<u32>|
        #![trigger radiance_sum_v(vals), count_sum_v(rc0, bounces)]
        {
            &&& vals.len() == cam.samples_v()
            &&& bounces.len() == cam.samples_v()
            &&& forall|i: int|
                0 <= i < vals.len() ==> sample_rel(
                    scn,
                    cam,
                    x,
                    y,
                    Channel::All,
                    #[trigger] vals[i],
                    bounces[i],
                )
            &&& c == v4_div_scalar(
                radiance_sum_v(vals),
                fx_clip((cam.samples_v() as int) * 65536),
            )
            &&& rc1 == count_sum_v(rc0, bounces)
        };
    assert(strength <= crate::fixed::FX_MAX_RAW) by (nonlinear_arith)
        requires
            strength * (cam.samples_v() as int) <= crate::fixed::FX_MAX_RAW,
            cam.samples_v() >= 1,
            0 <= strength;
    assert forall|i: int|
        0 <= i < vals.len() implies (#[trigger] vals[i]).x == strength && vals[i].y == strength
            && vals[i].z == strength by {
        assert(sample_rel(scn, cam, x, y, Channel::All, vals[i], bounces[i]));
        lemma_empty_scene_sample_white(scn, cam, bg, x, y, vals[i], bounces[i]);
    }
    assert(strength * n <= crate::fixed::FX_MAX_RAW) by (nonlinear_arith)
        requires
            strength * (cam.samples_v() as int) <= crate::fixed::FX_MAX_RAW,
            n == cam.samples_v() as int;
    assert(n * strength <= crate::fixed::FX_MAX_RAW) by (nonlinear_arith)
        requires
            strength * n <= crate::fixed::FX_MAX_RAW;
    lemma_radiance_sum_const(vals, strength);
    assert(fx_clip(n * 65536) == n * 65536);
    assert(crate::fixed::fx_div_v(n * strength, n * 65536) == strength) by {
        assert(n * strength * 65536 == strength * (n * 65536)) by (nonlinear_arith);
        vstd::arithmetic::div_mod::lemma_div_by_multiple(strength, n * 65536);
        assert(crate::fixed::tdiv(n * strength * 65536, n * 65536) == strength);
    }
}

/// One integrator step from a fresh path always records a bounce — even a
/// miss appends the miss material's record — so an accumulated path is
/// never empty in practice.
pub proof fn lemma_trace_always_records(
    scn: Scene,
    pre: RayInfo,
    post: RayInfo,
    normal: bool,
    terminated: bool,
)
    requires
        pre.depth == 0,
        match scene_hit_v(scn, pre.ray@, 0, 6553600) {
            Some(p) => if normal {
                trace_normal_post(pre, post, p.0)
            } else {
                trace_hit_post(scn, pre, post, p.0, p.1, terminated)
            },
            None => trace_miss_post(scn, pre, post),
        },
    ensures
        post.depth == 1,
{
    match scene_hit_v(scn, pre.ray@, 0, 6553600) {
        Some(p) => {
            if normal {
                let out = choose|out: MaterialInfo|
                    out@.attenuation == normal_shade_v(p.0.normal) && out@.emission == v4_zero()
                        && #[trigger] bounce_appended(pre, post, out) && post.ray == pre.ray;
                assert(bounce_appended(pre, post, out));
            } else {
                let (hi, out, cont) = choose|hi: HitInfo, out: MaterialInfo, cont: bool|
                    hi@ == p.0 && hi.material == p.1 && #[trigger] scn.materials@[
                        p.1 as int
                    ].scatter_rel(pre.ray, hi, post.ray, out, cont) && bounce_appended(
                        pre,
                        post,
                        out,
                    ) && terminated == !cont;
                assert(bounce_appended(pre, post, out));
            }
        },
        None => {
            let (hi, out, cont) = choose|hi: HitInfo, out: MaterialInfo, cont: bool|
                hi@ == empty_hit_v() && hi.material == 0 && #[trigger] scn.materials@[
                    scn.miss as int
                ].scatter_rel(pre.ray, hi, post.ray, out, cont) && bounce_appended(pre, post, out);
            assert(bounce_appended(pre, post, out));
        },
    }
}

/// One integrator step in colour mode, exactly as `trace`'s contract
/// states it: scatter at the scene's nearest hit, or the miss material.
pub open spec fn trace_step_rel(scn: Scene, pre: RayInfo, post: RayInfo, terminated: bool) -> bool {
    match scene_hit_v(scn, pre.ray@, 0, 6553600) {
        Some(p) => trace_hit_post(scn, pre, post, p.0, p.1, terminated),
        None => terminated && trace_miss_post(scn, pre, post),
    }
}

/// Exactly `steps` non-terminating integrator steps lead from `pre` to
/// `post`.
pub open spec fn walk_rel(scn: Scene, pre: RayInfo, post: RayInfo, steps: int) -> bool
    decreases steps,
{
    if steps <= 0 {
        post == pre
    } else {
        exists|mid: RayInfo|
            #[trigger] trace_step_rel(scn, pre, mid, false) && walk_rel(scn, mid, post, steps - 1)
    }
}

/// A bounded integrator walk: from `pre`, the path either terminates at
/// `post` within `fuel` steps, or `post` is the state after `fuel`
/// non-terminating steps — the depth-capped loop of the per-sample tracer.
pub open spec fn path_rel(scn: Scene, pre: RayInfo, post: RayInfo, fuel: int) -> bool
    decreases fuel,
{
    if fuel <= 0 {
        post == pre
    } else {
        exists|mid: RayInfo, term: bool|
            #[trigger] trace_step_rel(scn, pre, mid, term) && (if term {
                post == mid
            } else {
                path_rel(scn, mid, post, fuel - 1)
            })
    }
}

/// A non-terminating step extends a walk by one.
proof fn lemma_walk_extend(scn: Scene, pre: RayInfo, cur: RayInfo, next: RayInfo, steps: int)
    requires
        steps >= 0,
        walk_rel(scn, pre, cur, steps),
        trace_step_rel(scn, cur, next, false),
    ensures
        walk_rel(scn, pre, next, steps + 1),
    decreases steps,
{
    if steps <= 0 {
        assert(cur == pre);
        assert(walk_rel(scn, next, next, 0));
        assert(walk_rel(scn, pre, next, 1));
    } else {
        let mid = choose|mid: RayInfo|
            #[trigger] trace_step_rel(scn, pre, mid, false) && walk_rel(scn, mid, cur, steps - 1);
        lemma_walk_extend(scn, mid, cur, next, steps - 1);
        assert(walk_rel(scn, pre, next, steps + 1));
    }
}

/// A terminating step after a walk closes a bounded path.
proof fn lemma_walk_then_terminate(
    scn: Scene,
    pre: RayInfo,
    cur: RayInfo,
    next: RayInfo,
    steps: int,
    fuel: int,
)
    requires
        0 <= steps < fuel,
        walk_rel(scn, pre, cur, steps),
        trace_step_rel(scn, cur, next, true),
    ensures
        path_rel(scn, pre, next, fuel),
    decreases steps,
{
    if steps <= 0 {
        assert(cur == pre);
        assert(path_rel(scn, pre, next, fuel));
    } else {
        let mid = choose|mid: RayInfo|
            #[trigger] trace_step_rel(scn, pre, mid, false) && walk_rel(scn, mid, cur, steps - 1);
        lemma_walk_then_terminate(scn, mid, cur, next, steps - 1, fuel - 1);
        assert(path_rel(scn, pre, next, fuel));
    }
}

/// A walk that uses up the whole step budget is a bounded path.
proof fn lemma_walk_to_path(scn: Scene, pre: RayInfo, post: RayInfo, fuel: int)
    requires
        fuel >= 0,
        walk_rel(scn, pre, post, fuel),
    ensures
        path_rel(scn, pre, post, fuel),
    decreases fuel,
{
    if fuel > 0 {
        let mid = choose|mid: RayInfo|
            #[trigger] trace_step_rel(scn, pre, mid, false) && walk_rel(scn, mid, post, fuel - 1);
        lemma_walk_to_path(scn, mid, post, fuel - 1);
        assert(path_rel(scn, pre, post, fuel));
    }
}

/// A fresh path scratch aimed along the camera ray for pixel `(x, y)` with
/// some unit-disk jitter, offsets halved as the sampler applies them.
pub open spec fn jittered_start_rel<C: Camera>(
    cam: C,
    x: u32,
    y: u32,
    channel: Channel,
    start: RayInfo,
) -> bool {
    exists|jx: int, jy: int|
        #![trigger fx_mul_v(jx, 32768), fx_mul_v(jy, 32768)]
        {
            &&& fx_add_v(fx_mul_v(jx, jx), fx_mul_v(jy, jy)) <= FX_ONE
            &&& -FX_ONE <= jx <= FX_ONE
            &&& -FX_ONE <= jy <= FX_ONE
            &&& start.depth == 0
            &&& start.mat_info@.len() == 0
            &&& start.ray@ == cam.ray_v(
                fx_add_v(fx_clip((x as int) * 65536), fx_mul_v(jx, 32768)),
                fx_add_v(fx_clip((y as int) * 65536), fx_mul_v(jy, 32768)),
                channel,
            )
        }
}

/// One sample's outcome: the fold of a bounce list that a depth-capped
/// integrator walk from the pixel's jittered camera ray can produce, and
/// the number of bounces it recorded.
pub open spec fn sample_rel<C: Camera>(
    scn: Scene,
    cam: C,
    x: u32,
    y: u32,
    channel: Channel,
    val: V4,
    bounces: u32,
) -> bool {
    exists|start: RayInfo, post: RayInfo|
        #![trigger path_rel(scn, start, post, 10)]
        {
            &&& jittered_start_rel(cam, x, y, channel, start)
            &&& path_rel(scn, start, post, 10)
            &&& val == accum_v(post.mat_info@)
            &&& bounces == post.depth
        }
}

/// The per-sample radiances summed in sampling order.
pub open spec fn radiance_sum_v(vals: Seq<V4>) -> V4
    decreases vals.len(),
{
    if vals.len() == 0 {
        v4_zero()
    } else {
        v4_add(radiance_sum_v(vals.drop_last()), vals.last())
    }
}

/// The ray counter after adding each sample's bounce count in order, each
/// addition saturating at the counter's maximum.
pub open spec fn count_sum_v(start: int, bounces: Seq<u32>) -> int
    decreases bounces.len(),
{
    if bounces.len() == 0 {
        start
    } else {
        let p = count_sum_v(start, bounces.drop_last());
        if p + bounces.last() <= 0xFFFF_FFFF {
            p + bounces.last()
        } else {
            0xFFFF_FFFF
        }
    }
}

/// One full sampling pass over a pixel for one channel: the result is the
/// sum of `samples` per-sample radiances divided by the sample count, and
/// the ray counter went from `rc0` to `rc1` by adding the samples' bounce
/// counts.
pub open spec fn pass_rel<C: Camera>(
    scn: Scene,
    cam: C,
    x: u32,
    y: u32,
    channel: Channel,
    c: V4,
    rc0: int,
    rc1: int,
) -> bool {
    exists|vals: Seq<V4>, bounces: Seq<u32>|
        #![trigger radiance_sum_v(vals), count_sum_v(rc0, bounces)]
        {
            &&& vals.len() == cam.samples_v()
            &&& bounces.len() == cam.samples_v()
            &&& forall|i: int|
                0 <= i < vals.len() ==> sample_rel(
                    scn,
                    cam,
                    x,
                    y,
                    channel,
                    #[trigger] vals[i],
                    bounces[i],
                )
            &&& c == v4_div_scalar(
                radiance_sum_v(vals),
                fx_clip((cam.samples_v() as int) * 65536),
            )
            &&& rc1 == count_sum_v(rc0, bounces)
        }
}

/// A pixel's value: one pass for a combined camera; for a separating one,
/// three passes, one per channel, assembled component-wise.
pub open spec fn pixel_rel<C: Camera>(scn: Scene, cam: C, x: u32, y: u32, c: V4) -> bool {
    match cam.mode_v() {
        Mode::Combined => exists|rc0: int, rc1: int|
            #[trigger] pass_rel(scn, cam, x, y, Channel::All, c, rc0, rc1),
        Mode::Separate => exists|pr: V4, pg: V4, pb: V4, rc0: int, rc1: int, rc2: int, rc3: int|
            #![trigger pass_rel(scn, cam, x, y, Channel::R, pr, rc0, rc1), pass_rel(scn, cam, x, y, Channel::G, pg, rc1, rc2), pass_rel(scn, cam, x, y, Channel::B, pb, rc2, rc3)]
            {
                &&& pass_rel(scn, cam, x, y, Channel::R, pr, rc0, rc1)
                &&& pass_rel(scn, cam, x, y, Channel::G, pg, rc1, rc2)
                &&& pass_rel(scn, cam, x, y, Channel::B, pb, rc2, rc3)
                &&& c == v4(pr.x, pg.y, pb.z, 0)
            },
    }
}

fn sat_add_u32(a: u32, b: u32) -> (r: u32)
    ensures
        r as int == (if a + b <= 0xFFFF_FFFF {
            (a + b) as int
        } else {
            0xFFFF_FFFF
        }),
{
    if a <= u32::MAX - b {
        a + b
    } else {
        u32::MAX
    }
}

/// Average `samples` jittered, fully traced paths through pixel `(x, y)`
/// for one channel: the result is the per-sample radiance sum divided by
/// the sample count (`pass_rel`), non-negative whenever the scene's
/// materials are, and the ray counter adds up the recorded bounces.
#[verifier::rlimit(100)]
#[verifier::spinoff_prover]
fn sample_pixel<C: Camera>(
    scn: &Scene,
    cam: &C,
    x: u32,
    y: u32,
    ray_info: &mut RayInfo,
    ray_count: &mut u32,
    channel: Channel,
) -> (c: Vec4)
    requires
        scene_wf(*scn),
        scene_nonneg(*scn),
        cam.samples_v() >= 1,
        ray_info_wf(*old(ray_info)),
    ensures
        pass_rel(*scn, *cam, x, y, channel, c@, *old(ray_count) as int, *final(ray_count) as int),
        v4_nonneg(c@),
        ray_info_wf(*final(ray_info)),
        *final(ray_count) >= *old(ray_count),
{
    let mut col = Vec4::zero();
    let samples = cam.sample_count();
    let mut s: u32 = 0;
    let ghost mut vals: Seq<V4> = Seq::empty();
    let ghost mut bcs: Seq<u32> = Seq::empty();
    while s < samples
        invariant
            s <= samples,
            v4_nonneg(col@),
            scene_wf(*scn),
            scene_nonneg(*scn),
            samples == cam.samples_v(),
            ray_info_wf(*ray_info),
            *ray_count >= *old(ray_count),
            vals.len() == s,
            bcs.len() == s,
            forall|i: int|
                0 <= i < vals.len() ==> sample_rel(
                    *scn,
                    *cam,
                    x,
                    y,
                    channel,
                    #[trigger] vals[i],
                    bcs[i],
                ),
            col@ == radiance_sum_v(vals),
            *ray_count as int == count_sum_v(*old(ray_count) as int, bcs),
        decreases samples - s,
    {
        let (jx, jy) = crate::random::random_in_unit_disk2();
        let px = Fx::from_int(x as i64).add(jx.mul(Fx::new(32768)));
        let py = Fx::from_int(y as i64).add(jy.mul(Fx::new(32768)));
        let ray = cam.get_ray(px, py, channel);
        ray_info.reset(&ray);
        let ghost start = *ray_info;
        proof {
            assert(jittered_start_rel(*cam, x, y, channel, start));
        }

        let mut d: u32 = 0;
        let mut done = false;
        while !done && d < 10
            invariant
                ray_info_wf(*ray_info),
                records_nonneg(ray_info.mat_info@),
                scene_wf(*scn),
                scene_nonneg(*scn),
                d <= 10,
                if done {
                    path_rel(*scn, start, *ray_info, 10)
                } else {
                    walk_rel(*scn, start, *ray_info, d as int)
                },
            decreases 10 - d,
        {
            let ghost pre = *ray_info;
            done = trace(ray_info, scn, false);
            proof {
                lemma_trace_keeps_records_nonneg(*scn, pre, *ray_info, done);
                assert(trace_step_rel(*scn, pre, *ray_info, done));
                if done {
                    lemma_walk_then_terminate(*scn, start, pre, *ray_info, d as int, 10);
                } else {
                    lemma_walk_extend(*scn, start, pre, *ray_info, d as int);
                }
            }
            d = d + 1;
        }

        let acc = ray_info.accumulate();
        proof {
            lemma_accum_nonneg(ray_info.mat_info@);
            if !done {
                lemma_walk_to_path(*scn, start, *ray_info, 10);
            }
            assert(path_rel(*scn, start, *ray_info, 10));
            assert(sample_rel(*scn, *cam, x, y, channel, acc@, ray_info.depth));
            let vals0 = vals;
            let bcs0 = bcs;
            vals = vals.push(acc@);
            bcs = bcs.push(ray_info.depth);
            assert(vals.drop_last() =~= vals0);
            assert(bcs.drop_last() =~= bcs0);
            assert(vals.last() == acc@);
            assert(bcs.last() == ray_info.depth);
        }
        col = col.add(acc);
        *ray_count = sat_add_u32(*ray_count, ray_info.depth);
        s = s + 1;
    }
    let denom = Fx::from_int(samples as i64);
    proof {
        assert(denom@ > 0);
        lemma_fx_div_nonneg(col@.x, denom@);
        lemma_fx_div_nonneg(col@.y, denom@);
        lemma_fx_div_nonneg(col@.z, denom@);
        lemma_fx_div_nonneg(col@.w, denom@);
    }
    let c = col.div_scalar(denom);
    proof {
        assert(vals.len() == cam.samples_v());
        assert(bcs.len() == cam.samples_v());
        assert(denom@ == fx_clip((cam.samples_v() as int) * 65536));
        assert(c@ == v4_div_scalar(radiance_sum_v(vals), fx_clip((cam.samples_v() as int) * 65536)));
        assert(*ray_count as int == count_sum_v(*old(ray_count) as int, bcs));
        assert(forall|i: int|
            0 <= i < vals.len() ==> sample_rel(*scn, *cam, x, y, channel, #[trigger] vals[i], bcs[i]));
        assert(pass_rel(
            *scn,
            *cam,
            x,
            y,
            channel,
            c@,
            *old(ray_count) as int,
            *ray_count as int,
        ));
    }
    c
}

/// One trace step on a non-negative scene appends only non-negative
/// bounce records.
pub proof fn lemma_trace_keeps_records_nonneg(
    scn: Scene,
    pre: RayInfo,
    post: RayInfo,
    terminated: bool,
)
    requires
        scene_wf(scn),
        scene_nonneg(scn),
        records_nonneg(pre.mat_info@),
        match scene_hit_v(scn, pre.ray@, 0, 6553600) {
            Some(p) => trace_hit_post(scn, pre, post, p.0, p.1, terminated),
            None => trace_miss_post(scn, pre, post),
        },
    ensures
        records_nonneg(post.mat_info@),
{
    match scene_hit_v(scn, pre.ray@, 0, 6553600) {
        Some(p) => {
            lemma_scene_best_nearest(scn.objects@, pre.ray@, 0, 6553600, scn.objects@.len() as int);
            assert((p.1 as int) < scn.materials@.len());
            let (hi, out, cont) = choose|hi: HitInfo, out: MaterialInfo, cont: bool|
                hi@ == p.0 && hi.material == p.1 && #[trigger] scn.materials@[
                    p.1 as int
                ].scatter_rel(pre.ray, hi, post.ray, out, cont) && bounce_appended(pre, post, out)
                    && terminated == !cont;
            lemma_scatter_nonneg(scn.materials@[p.1 as int], pre.ray, hi, post.ray, out, cont);
            lemma_push_keeps_records_nonneg(pre, post, out);
        },
        None => {
            let (hi, out, cont) = choose|hi: HitInfo, out: MaterialInfo, cont: bool|
                hi@ == empty_hit_v() && hi.material == 0 && #[trigger] scn.materials@[
                    scn.miss as int
                ].scatter_rel(pre.ray, hi, post.ray, out, cont) && bounce_appended(pre, post, out);
            lemma_scatter_nonneg(scn.materials@[scn.miss as int], pre.ray, hi, post.ray, out, cont);
            lemma_push_keeps_records_nonneg(pre, post, out);
        },
    }
}

proof fn lemma_push_keeps_records_nonneg(pre: RayInfo, post: RayInfo, out: MaterialInfo)
    requires
        records_nonneg(pre.mat_info@),
        v4_nonneg(out@.attenuation),
        v4_nonneg(out@.emission),
        bounce_appended(pre, post, out),
    ensures
        records_nonneg(post.mat_info@),
{
    if pre.depth < 10 {
        assert forall|i: int| 0 <= i < post.mat_info@.len() implies v4_nonneg(
            #[trigger] post.mat_info@[i]@.attenuation,
        ) && v4_nonneg(post.mat_info@[i]@.emission) by {
            if i < pre.mat_info@.len() {
                assert(post.mat_info@[i] == pre.mat_info@[i]);
            } else {
                assert(post.mat_info@[i] == out);
            }
        }
    }
}

/// Average the traced radiance for pixel `(x, y)`: one sampling pass for a
/// combined camera; for a separating one, an independent pass per colour
/// channel, assembled component-wise.
pub fn color<C: Camera>(
    scn: &Scene,
    cam: &C,
    x: u32,
    y: u32,
    ray_info: &mut RayInfo,
    ray_count: &mut u32,
) -> (c: Vec4)
    requires
        scene_wf(*scn),
        scene_nonneg(*scn),
        cam.samples_v() >= 1,
        ray_info_wf(*old(ray_info)),
    ensures
        match cam.mode_v() {
            Mode::Combined => pass_rel(
                *scn,
                *cam,
                x,
                y,
                Channel::All,
                c@,
                *old(ray_count) as int,
                *final(ray_count) as int,
            ),
            Mode::Separate => exists|pr: V4, pg: V4, pb: V4, rc1: int, rc2: int|
                #![trigger pass_rel(*scn, *cam, x, y, Channel::R, pr, *old(ray_count) as int, rc1), pass_rel(*scn, *cam, x, y, Channel::G, pg, rc1, rc2), pass_rel(*scn, *cam, x, y, Channel::B, pb, rc2, *final(ray_count) as int)]
                {
                    &&& pass_rel(
                        *scn,
                        *cam,
                        x,
                        y,
                        Channel::R,
                        pr,
                        *old(ray_count) as int,
                        rc1,
                    )
                    &&& pass_rel(*scn, *cam, x, y, Channel::G, pg, rc1, rc2)
                    &&& pass_rel(
                        *scn,
                        *cam,
                        x,
                        y,
                        Channel::B,
                        pb,
                        rc2,
                        *final(ray_count) as int,
                    )
                    &&& c@ == v4(pr.x, pg.y, pb.z, 0)
                },
        },
        pixel_rel(*scn, *cam, x, y, c@),
        v4_nonneg(c@),
        ray_info_wf(*final(ray_info)),
        *final(ray_count) >= *old(ray_count),
{
    let m = cam.mode();
    match m {
        Mode::Combined => {
            let c = sample_pixel(scn, cam, x, y, ray_info, ray_count, Channel::All);
            proof {
                assert(pixel_rel(*scn, *cam, x, y, c@));
            }
            c
        },
        Mode::Separate => {
            let rc = sample_pixel(scn, cam, x, y, ray_info, ray_count, Channel::R);
            let ghost c1 = *ray_count as int;
            let gc = sample_pixel(scn, cam, x, y, ray_info, ray_count, Channel::G);
            let ghost c2 = *ray_count as int;
            let bc = sample_pixel(scn, cam, x, y, ray_info, ray_count, Channel::B);
            let c = Vec4::from3(rc.r(), gc.g(), bc.b());
            proof {
                assert(pass_rel(*scn, *cam, x, y, Channel::R, rc@, *old(ray_count) as int, c1));
                assert(pass_rel(*scn, *cam, x, y, Channel::G, gc@, c1, c2));
                assert(pass_rel(*scn, *cam, x, y, Channel::B, bc@, c2, *ray_count as int));
                assert(c@ == v4(rc@.x, gc@.y, bc@.z, 0));
                assert(pixel_rel(*scn, *cam, x, y, c@));
            }
            c
        },
    }
}

/// Render one scanline left to right into a fresh row.
pub fn trace_scan_line<C: Camera>(cam: &C, scn: &Scene, y: u32, ray_count: &mut u32) -> (line: Vec<
    Vec4,
>)
    requires
        scene_wf(*scn),
        scene_nonneg(*scn),
        cam.samples_v() >= 1,
    ensures
        line@.len() == cam.width_v(),
        forall|i: int| 0 <= i < line@.len() ==> v4_nonneg(#[trigger] line@[i]@),
        forall|i: int|
            0 <= i < line@.len() ==> pixel_rel(*scn, *cam, i as u32, y, #[trigger] line@[i]@),
{
    let width = cam.width();
    let mut line: Vec<Vec4> = Vec::new();
    let mut ray = RayInfo::new();
    let mut x: u32 = 0;
    while x < width
        invariant
            x <= width,
            width == cam.width_v(),
            line@.len() == x,
            forall|i: int| 0 <= i < line@.len() ==> v4_nonneg(#[trigger] line@[i]@),
            forall|i: int|
                0 <= i < line@.len() ==> pixel_rel(*scn, *cam, i as u32, y, #[trigger] line@[i]@),
            scene_wf(*scn),
            scene_nonneg(*scn),
            cam.samples_v() >= 1,
            ray_info_wf(ray),
        decreases width - x,
    {
        let c = color(scn, cam, x, y, &mut ray, ray_count);
        line.push(c);
        x = x + 1;
    }
    line
}

/// Render one scanline with a scratch ray counter (for callers that do not
/// track ray counts, such as the parallel driver).
pub fn trace_scan_line_counted<C: Camera>(cam: &C, scn: &Scene, y: u32) -> (line: Vec<Vec4>)
    requires
        scene_wf(*scn),
        scene_nonneg(*scn),
        cam.samples_v() >= 1,
    ensures
        line@.len() == cam.width_v(),
        forall|i: int| 0 <= i < line@.len() ==> v4_nonneg(#[trigger] line@[i]@),
        forall|i: int|
            0 <= i < line@.len() ==> pixel_rel(*scn, *cam, i as u32, y, #[trigger] line@[i]@),
{
    let mut rc: u32 = 0;
    trace_scan_line(cam, scn, y, &mut rc)
}

/// Render the whole image scanline by scanline: row `y` of the result is
/// the scanline at `y`, every pixel a valid colour.
pub fn trace_image<C: Camera>(cam: &C, scn: &Scene, ray_count: &mut u32) -> (img: Vec<Vec<Vec4>>)
    requires
        scene_wf(*scn),
        scene_nonneg(*scn),
        cam.samples_v() >= 1,
    ensures
        img@.len() == cam.height_v(),
        forall|yy: int| 0 <= yy < img@.len() ==> #[trigger] img@[yy]@.len() == cam.width_v(),
        forall|yy: int, xx: int|
            0 <= yy < img@.len() && 0 <= xx < img@[yy]@.len() ==> v4_nonneg(
                #[trigger] img@[yy]@[xx]@,
            ),
        forall|yy: int, xx: int|
            0 <= yy < img@.len() && 0 <= xx < img@[yy]@.len() ==> pixel_rel(
                *scn,
                *cam,
                xx as u32,
                yy as u32,
                #[trigger] img@[yy]@[xx]@,
            ),
{
    let height = cam.height();
    let mut img: Vec<Vec<Vec4>> = Vec::new();
    let mut y: u32 = 0;
    while y < height
        invariant
            y <= height,
            height == cam.height_v(),
            img@.len() == y,
            forall|yy: int| 0 <= yy < img@.len() ==> #[trigger] img@[yy]@.len() == cam.width_v(),
            forall|yy: int, xx: int|
                0 <= yy < img@.len() && 0 <= xx < img@[yy]@.len() ==> v4_nonneg(
                    #[trigger] img@[yy]@[xx]@,
                ),
            forall|yy: int, xx: int|
                0 <= yy < img@.len() && 0 <= xx < img@[yy]@.len() ==> pixel_rel(
                    *scn,
                    *cam,
                    xx as u32,
                    yy as u32,
                    #[trigger] img@[yy]@[xx]@,
                ),
            scene_wf(*scn),
            scene_nonneg(*scn),
            cam.samples_v() >= 1,
        decreases height - y,
    {
        let line = trace_scan_line(cam, scn, y, ray_count);
        img.push(line);
        y = y + 1;
    }
    img
}

/// Relies on rayon's parallel iterator: `into_par_iter().map(...).collect()`
/// applies the verified scanline renderer to every row index and collects
/// the rows in index order, so the image keeps the scanline layout the
/// sequential driver produces; every clause below is what
/// `trace_scan_line_counted`'s verified contract gives for each row.
#[verifier::external_body]
pub fn trace_image_par<C: Camera + Sync>(cam: &C, scn: &Scene) -> (img: Vec<Vec<Vec4>>)
    requires
        scene_wf(*scn),
        scene_nonneg(*scn),
        cam.samples_v() >= 1,
    ensures
        img@.len() == cam.height_v(),
        forall|yy: int| 0 <= yy < img@.len() ==> #[trigger] img@[yy]@.len() == cam.width_v(),
        forall|yy: int, xx: int|
            0 <= yy < img@.len() && 0 <= xx < img@[yy]@.len() ==> v4_nonneg(
                #[trigger] img@[yy]@[xx]@,
            ),
        forall|yy: int, xx: int|
            0 <= yy < img@.len() && 0 <= xx < img@[yy]@.len() ==> pixel_rel(
                *scn,
                *cam,
                xx as u32,
                yy as u32,
                #[trigger] img@[yy]@[xx]@,
            ),
{
    (0..cam.height()).into_par_iter().map(|y| trace_scan_line_counted(cam, scn, y)).collect()
}

} // verus!
