//! Materials and the scatter protocol: each material kind turns an incoming
//! ray and a hit into an attenuation colour, an emission colour, and —
//! where the path continues — an outgoing ray.
//!
//! Where a bounce involves randomness, the contract quantifies over the
//! sample: it states the exact outcome for every point the sampler can
//! produce.

use crate::fixed::{fx_add_v, fx_clamp_v, fx_mul_v, fx_sub_v, Fx, FX_ONE};
use crate::hit::HitInfo;
use crate::random::{on_unit_sample_v, random_in_unit_sphere};
use crate::ray::Ray;
use crate::texture::{ConstantTexture, Sample, Texture};
use crate::vec::{
    lemma_v4_scale_nonneg, v4_add, v4_dot, v4_nonneg, v4_norm, v4_norm3, v4_one, v4_reflect,
    v4_scale, v4_splat, v4_zero, Vec4, V4,
};
use vstd::prelude::*;

verus! {

/// One bounce's contribution: what the surface reflects and what it emits.
#[derive(Clone, Copy, PartialEq, Eq, Structural, Debug)]
pub struct MaterialInfo {
    pub attenuation: Vec4,
    pub emission: Vec4,
}

/// Mathematical model of a bounce contribution.
pub ghost struct MatInfoV {
    pub attenuation: V4,
    pub emission: V4,
}

impl View for MaterialInfo {
    type V = MatInfoV;

    open spec fn view(&self) -> MatInfoV {
        MatInfoV { attenuation: self.attenuation@, emission: self.emission@ }
    }
}

impl MaterialInfo {
    pub fn new() -> (r: MaterialInfo)
        ensures
            r@ == (MatInfoV { attenuation: v4_one(), emission: v4_zero() }),
    {
        MaterialInfo { attenuation: Vec4::one(), emission: Vec4::zero() }
    }
}

/// The scatter protocol. `scatter_rel` is the material's model: it relates
/// the incoming ray and hit to the outgoing ray, the bounce contribution,
/// and whether the path continues. The executable `scatter` is proved to
/// land in that relation.
pub trait Scatter {
    spec fn scatter_rel(&self, prev: Ray, hit: HitInfo, next: Ray, out: MaterialInfo, cont: bool)
        -> bool;

    fn scatter(&self, r: &mut Ray, hit: &HitInfo, out_mat: &mut MaterialInfo) -> (cont: bool)
        ensures
            self.scatter_rel(*old(r), *hit, *final(r), *final(out_mat), cont),
    ;
}

#[derive(Clone, Debug)]
pub struct Lambertian {
    pub albedo: Texture,
}

#[derive(Clone, Debug)]
pub struct Emissive {
    pub emissive: Texture,
}

#[derive(Clone, Debug)]
pub struct Metal {
    pub albedo: Texture,
    pub roughness: Fx,
}

#[derive(Clone, Debug)]
pub struct Background {
    pub color: Texture,
    pub strength: Fx,
}

#[allow(inconsistent_fields)]
#[derive(Clone, Debug)]
pub enum Material {
    Lambertian { mat: Lambertian },
    Emissive { mat: Emissive },
    Metal { mat: Metal },
    Background { mat: Background },
}

//######################################################################
// Lambertian
//######################################################################

impl Lambertian {
    pub fn new(r: Fx, g: Fx, b: Fx) -> (m: Material)
        ensures
            m == (Material::Lambertian {
                mat: Lambertian {
                    albedo: Texture::ConstantTexture {
                        tex: ConstantTexture { color: Vec4 { x: r, y: g, z: b, w: Fx { raw: 0 } } },
                    },
                },
            }),
    {
        Material::Lambertian { mat: Lambertian { albedo: ConstantTexture::from(r, g, b).texture() } }
    }

    /// A diffuse material over an arbitrary texture.
    pub fn from_texture(tex: Texture) -> (m: Material)
        ensures
            m == (Material::Lambertian { mat: Lambertian { albedo: tex } }),
    {
        Material::Lambertian { mat: Lambertian { albedo: tex } }
    }
}

impl Scatter for Lambertian {
    /// A cosine-weighted diffuse bounce: the new direction is the unit
    /// normal plus a random unit vector, renormalised; the path always
    /// continues; nothing is emitted.
    open spec fn scatter_rel(
        &self,
        prev: Ray,
        hit: HitInfo,
        next: Ray,
        out: MaterialInfo,
        cont: bool,
    ) -> bool {
        &&& cont == true
        &&& next.origin@ == hit@.point
        &&& exists|p: V4|
            on_unit_sample_v(p) && next.direction@ == v4_norm3(v4_add(hit@.normal, p))
        &&& out@.attenuation == self.albedo.sample_v(hit@.u, hit@.v)
        &&& out@.emission == v4_zero()
    }

    fn scatter(&self, r: &mut Ray, hit: &HitInfo, out_mat: &mut MaterialInfo) -> (cont: bool) {
        let rnd = random_in_unit_sphere();
        let dir = hit.normal.add(rnd).norm3();
        *r = Ray::new(hit.point, dir);
        out_mat.attenuation = self.albedo.sample(hit);
        out_mat.emission = Vec4::zero();
        proof {
            assert(dir@ == v4_norm3(v4_add(hit@.normal, rnd@)));
        }
        true
    }
}

//######################################################################
// Emissive
//######################################################################

impl Emissive {
    pub fn new(r: Fx, g: Fx, b: Fx) -> (m: Material)
        ensures
            m == (Material::Emissive {
                mat: Emissive {
                    emissive: Texture::ConstantTexture {
                        tex: ConstantTexture { color: Vec4 { x: r, y: g, z: b, w: Fx { raw: 0 } } },
                    },
                },
            }),
    {
        Material::Emissive { mat: Emissive { emissive: ConstantTexture::from(r, g, b).texture() } }
    }

    /// A light source over an arbitrary texture.
    pub fn from_texture(tex: Texture) -> (m: Material)
        ensures
            m == (Material::Emissive { mat: Emissive { emissive: tex } }),
    {
        Material::Emissive { mat: Emissive { emissive: tex } }
    }
}

impl Scatter for Emissive {
    /// A light source: the path terminates, the sampled emission is
    /// reported, attenuation stays neutral, the ray is left untouched.
    open spec fn scatter_rel(
        &self,
        prev: Ray,
        hit: HitInfo,
        next: Ray,
        out: MaterialInfo,
        cont: bool,
    ) -> bool {
        &&& cont == false
        &&& next == prev
        &&& out@.attenuation == v4_one()
        &&& out@.emission == self.emissive.sample_v(hit@.u, hit@.v)
    }

    fn scatter(&self, r: &mut Ray, hit: &HitInfo, out_mat: &mut MaterialInfo) -> (cont: bool) {
        out_mat.attenuation = Vec4::one();
        out_mat.emission = self.emissive.sample(hit);
        false
    }
}

//######################################################################
// Metal
//######################################################################

impl Metal {
    pub fn new(r: Fx, g: Fx, b: Fx, roughness: Fx) -> (m: Material)
        ensures
            m == (Material::Metal {
                mat: Metal {
                    albedo: Texture::ConstantTexture {
                        tex: ConstantTexture { color: Vec4 { x: r, y: g, z: b, w: Fx { raw: 0 } } },
                    },
                    roughness,
                },
            }),
    {
        Material::Metal {
            mat: Metal { albedo: ConstantTexture::from(r, g, b).texture(), roughness },
        }
    }

    /// A reflective material over an arbitrary texture.
    pub fn from_texture(tex: Texture, roughness: Fx) -> (m: Material)
        ensures
            m == (Material::Metal { mat: Metal { albedo: tex, roughness } }),
    {
        Material::Metal { mat: Metal { albedo: tex, roughness } }
    }
}

impl Scatter for Metal {
    /// A mirror bounce: the incoming direction reflected about the normal,
    /// perturbed by `roughness` times a random unit vector when roughness is
    /// positive. The path continues only while the perturbed direction still
    /// points away from the surface.
    open spec fn scatter_rel(
        &self,
        prev: Ray,
        hit: HitInfo,
        next: Ray,
        out: MaterialInfo,
        cont: bool,
    ) -> bool {
        &&& next.origin@ == hit@.point
        &&& if self.roughness@ > 0 {
            exists|p: V4|
                on_unit_sample_v(p) && next.direction@ == v4_add(
                    v4_reflect(prev.direction@, hit@.normal),
                    v4_scale(self.roughness@, p),
                )
        } else {
            next.direction@ == v4_reflect(prev.direction@, hit@.normal)
        }
        &&& out@.attenuation == self.albedo.sample_v(hit@.u, hit@.v)
        &&& out@.emission == v4_zero()
        &&& cont == (v4_dot(next.direction@, hit@.normal) > 0)
    }

    fn scatter(&self, r: &mut Ray, hit: &HitInfo, out_mat: &mut MaterialInfo) -> (cont: bool) {
        let mut target = r.direction.reflect(&hit.normal);
        if self.roughness.raw > 0 {
            let rnd = random_in_unit_sphere();
            let ghost refl = target@;
            target = target.add(rnd.scale(self.roughness));
            proof {
                assert(target@ == v4_add(refl, v4_scale(self.roughness@, rnd@)));
            }
        }
        *r = Ray::new(hit.point, target);
        out_mat.attenuation = self.albedo.sample(hit);
        out_mat.emission = Vec4::zero();
        r.direction.dot(&hit.normal).raw > 0
    }
}

//######################################################################
// Background
//######################################################################

/// The mix weight of the background gradient: the unit direction's height
/// remapped from `[-1, 1]` to `[0, 1]`.
pub open spec fn background_t_v(dir: V4) -> int {
    fx_clamp_v(fx_mul_v(fx_add_v(v4_norm(dir).y, FX_ONE as int), 32768), 0, FX_ONE as int)
}

/// The background's emission for a ray pointing along `dir`: a vertical
/// gradient from white to the sky colour, scaled by the intensity.
pub open spec fn background_emission_v(color: V4, strength: int, dir: V4, u: int, v: int) -> V4 {
    let t = background_t_v(dir);
    v4_scale(strength, v4_add(v4_splat(fx_sub_v(FX_ONE as int, t)), v4_scale(t, color)))
}

impl Background {
    pub fn new(color: Vec4, strength: Fx) -> (m: Material)
        ensures
            m == (Material::Background {
                mat: Background {
                    color: Texture::ConstantTexture { tex: ConstantTexture { color } },
                    strength,
                },
            }),
    {
        Material::Background {
            mat: Background { color: ConstantTexture::new(&color).texture(), strength },
        }
    }

    /// A background over an arbitrary texture.
    pub fn from_texture(tex: Texture, strength: Fx) -> (m: Material)
        ensures
            m == (Material::Background { mat: Background { color: tex, strength } }),
    {
        Material::Background { mat: Background { color: tex, strength } }
    }
}

impl Scatter for Background {
    /// The miss material: emits the vertical gradient for the ray's
    /// direction and terminates the path; the ray is left untouched.
    open spec fn scatter_rel(
        &self,
        prev: Ray,
        hit: HitInfo,
        next: Ray,
        out: MaterialInfo,
        cont: bool,
    ) -> bool {
        &&& cont == false
        &&& next == prev
        &&& out@.attenuation == v4_one()
        &&& out@.emission == background_emission_v(
            self.color.sample_v(hit@.u, hit@.v),
            self.strength@,
            prev.direction@,
            hit@.u,
            hit@.v,
        )
    }

    fn scatter(&self, r: &mut Ray, hit: &HitInfo, out_mat: &mut MaterialInfo) -> (cont: bool) {
        let t = r.direction.norm().y().add(Fx::one()).mul(Fx::new(32768)).clamp(Fx::zero(), Fx::one());
        let sky = self.color.sample(hit);
        out_mat.emission = Vec4::splat(Fx::one().sub(t)).add(sky.scale(t)).scale(self.strength);
        out_mat.attenuation = Vec4::one();
        false
    }
}

/// The default miss material: a white-to-sky gradient of unit strength.
pub open spec fn default_miss_v() -> Material {
    Material::Background {
        mat: Background {
            color: Texture::ConstantTexture {
                tex: ConstantTexture {
                    color: Vec4 {
                        x: Fx { raw: 32768 },
                        y: Fx { raw: 45875 },
                        z: Fx { raw: 65536 },
                        w: Fx { raw: 0 },
                    },
                },
            },
            strength: Fx { raw: 65536 },
        },
    }
}

//######################################################################
// Material
//######################################################################

impl Scatter for Material {
    /// Dispatch to the concrete material's relation.
    open spec fn scatter_rel(
        &self,
        prev: Ray,
        hit: HitInfo,
        next: Ray,
        out: MaterialInfo,
        cont: bool,
    ) -> bool {
        match self {
            Material::Lambertian { mat } => mat.scatter_rel(prev, hit, next, out, cont),
            Material::Emissive { mat } => mat.scatter_rel(prev, hit, next, out, cont),
            Material::Metal { mat } => mat.scatter_rel(prev, hit, next, out, cont),
            Material::Background { mat } => mat.scatter_rel(prev, hit, next, out, cont),
        }
    }

    fn scatter(&self, r: &mut Ray, hit: &HitInfo, out_mat: &mut MaterialInfo) -> (cont: bool) {
        match self {
            Material::Lambertian { mat } => mat.scatter(r, hit, out_mat),
            Material::Emissive { mat } => mat.scatter(r, hit, out_mat),
            Material::Metal { mat } => mat.scatter(r, hit, out_mat),
            Material::Background { mat } => mat.scatter(r, hit, out_mat),
        }
    }
}

/// Whether every colour a texture can yield is non-negative.
pub open spec fn tex_nonneg(t: Texture) -> bool {
    match t {
        Texture::ConstantTexture { tex } => v4_nonneg(tex.color@),
        Texture::DynamicTexture { tex } => forall|i: int|
            0 <= i < tex.pixels@.len() ==> v4_nonneg(#[trigger] tex.pixels@[i]@),
    }
}

/// A non-negative texture samples to a non-negative colour everywhere.
pub proof fn lemma_tex_sample_nonneg(t: Texture, u: int, v: int)
    requires
        tex_nonneg(t),
    ensures
        v4_nonneg(t.sample_v(u, v)),
{
}

/// Whether a material can only reflect and emit non-negative light.
pub open spec fn material_nonneg(m: Material) -> bool {
    match m {
        Material::Lambertian { mat } => tex_nonneg(mat.albedo),
        Material::Emissive { mat } => tex_nonneg(mat.emissive),
        Material::Metal { mat } => tex_nonneg(mat.albedo),
        Material::Background { mat } => tex_nonneg(mat.color) && mat.strength@ >= 0,
    }
}

/// Scattering on a non-negative material yields non-negative attenuation
/// and emission, whatever the random sample was.
pub proof fn lemma_scatter_nonneg(
    m: Material,
    prev: Ray,
    hi: HitInfo,
    next: Ray,
    out: MaterialInfo,
    cont: bool,
)
    requires
        material_nonneg(m),
        m.scatter_rel(prev, hi, next, out, cont),
    ensures
        v4_nonneg(out@.attenuation),
        v4_nonneg(out@.emission),
{
    match m {
        Material::Lambertian { mat } => {
            lemma_tex_sample_nonneg(mat.albedo, hi@.u, hi@.v);
        },
        Material::Emissive { mat } => {
            lemma_tex_sample_nonneg(mat.emissive, hi@.u, hi@.v);
        },
        Material::Metal { mat } => {
            lemma_tex_sample_nonneg(mat.albedo, hi@.u, hi@.v);
        },
        Material::Background { mat } => {
            lemma_tex_sample_nonneg(mat.color, hi@.u, hi@.v);
            let sky = mat.color.sample_v(hi@.u, hi@.v);
            let t = background_t_v(prev.direction@);
            assert(0 <= t <= FX_ONE);
            lemma_v4_scale_nonneg(t, sky);
            let mixed = v4_add(v4_splat(fx_sub_v(FX_ONE as int, t)), v4_scale(t, sky));
            assert(v4_nonneg(mixed));
            lemma_v4_scale_nonneg(mat.strength@, mixed);
        },
    }
}

} // verus!
