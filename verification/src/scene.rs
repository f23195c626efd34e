//! The scene: a flat primitive list, a material table, and a designated
//! miss material. Scene-level intersection returns the globally nearest hit.

use crate::fixed::Fx;
use crate::hit::{HitInfo, HitV};
use crate::material::{default_miss_v, material_nonneg, Background, Material};
use crate::primitives::{
    lemma_prim_hit_in_window, lemma_prim_hit_window, prim_hit_v, prim_mat_v, Primitive,
};
use crate::ray::{Ray, RayV};
use crate::texture::Texture;
use crate::vec::Vec4;
use vstd::prelude::*;

verus! {

pub struct Scene {
    pub objects: Vec<Primitive>,
    pub materials: Vec<Material>,
    pub miss: u32,
}

/// Scene well-formedness: the miss index and every primitive's material
/// index point into the material table.
pub open spec fn scene_wf(s: Scene) -> bool {
    &&& (s.miss as int) < s.materials@.len()
    &&& forall|i: int|
        0 <= i < s.objects@.len() ==> (prim_mat_v(#[trigger] s.objects@[i]) as int)
            < s.materials@.len()
}

/// Whether every material of the scene reflects and emits only
/// non-negative light.
pub open spec fn scene_nonneg(s: Scene) -> bool {
    forall|i: int| 0 <= i < s.materials@.len() ==> material_nonneg(#[trigger] s.materials@[i])
}

/// The running best hit after testing the first `n` primitives, each tested
/// against a window capped by the best depth so far (ties keep the earlier
/// primitive). The second component is the winning material index.
pub open spec fn scene_best_v(
    objs: Seq<Primitive>,
    r: RayV,
    min: int,
    max: int,
    n: int,
) -> Option<(HitV, u32)>
    decreases n,
{
    if n <= 0 {
        None
    } else {
        let prev = scene_best_v(objs, r, min, max, n - 1);
        let bound = match prev {
            Some(p) => p.0.depth,
            None => max,
        };
        match prim_hit_v(objs[n - 1], r, min, bound) {
            Some(h) => Some((h, prim_mat_v(objs[n - 1]))),
            None => prev,
        }
    }
}

/// Model of the scene-level test: the nearest hit over all primitives.
pub open spec fn scene_hit_v(s: Scene, r: RayV, min: int, max: int) -> Option<(HitV, u32)> {
    scene_best_v(s.objects@, r, min, max, s.objects@.len() as int)
}

/// Every hit the running best reports lies strictly inside the window.
pub proof fn lemma_scene_best_in_window(objs: Seq<Primitive>, r: RayV, min: int, max: int, n: int)
    ensures
        scene_best_v(objs, r, min, max, n) matches Some(p) ==> min < p.0.depth && p.0.depth < max,
    decreases n,
{
    if n > 0 {
        lemma_scene_best_in_window(objs, r, min, max, n - 1);
        let prev = scene_best_v(objs, r, min, max, n - 1);
        let bound = match prev {
            Some(p) => p.0.depth,
            None => max,
        };
        lemma_prim_hit_in_window(objs[n - 1], r, min, bound);
    }
}

/// The scene test agrees with exhaustively testing every primitive against
/// the full window and keeping the smallest distance: a reported hit is some
/// primitive's hit, no primitive hits nearer, and a miss means no primitive
/// hits at all.
#[verifier::rlimit(100)]
#[verifier::spinoff_prover]
pub proof fn lemma_scene_best_nearest(objs: Seq<Primitive>, r: RayV, min: int, max: int, n: int)
    requires
        0 <= n <= objs.len(),
    ensures
        match scene_best_v(objs, r, min, max, n) {
            Some(p) => {
                &&& exists|i: int|
                    0 <= i < n && #[trigger] prim_hit_v(objs[i], r, min, max) == Some(p.0)
                        && prim_mat_v(objs[i]) == p.1
                &&& forall|j: int|
                    0 <= j < n ==> (#[trigger] prim_hit_v(objs[j], r, min, max) matches Some(g)
                        ==> g.depth >= p.0.depth)
            },
            None => forall|j: int|
                0 <= j < n ==> #[trigger] prim_hit_v(objs[j], r, min, max) is None,
        },
    decreases n,
{
    if n > 0 {
        lemma_scene_best_nearest(objs, r, min, max, n - 1);
        lemma_scene_best_in_window(objs, r, min, max, n - 1);
        let prev = scene_best_v(objs, r, min, max, n - 1);
        let bound = match prev {
            Some(p) => p.0.depth,
            None => max,
        };
        lemma_prim_hit_window(objs[n - 1], r, min, max, bound);
        lemma_prim_hit_in_window(objs[n - 1], r, min, bound);
        match prim_hit_v(objs[n - 1], r, min, bound) {
            Some(h) => {
                assert(prim_hit_v(objs[n - 1], r, min, max) == Some(h));
                assert(h.depth < bound);
                assert(scene_best_v(objs, r, min, max, n) == Some((h, prim_mat_v(objs[n - 1]))));
                assert forall|j: int| 0 <= j < n implies (#[trigger] prim_hit_v(objs[j], r, min,
                max) matches Some(g) ==> g.depth >= h.depth) by {
                    if j < n - 1 {
                        match prev {
                            Some(p) => {
                                assert(prim_hit_v(objs[j], r, min, max) matches Some(g)
                                    ==> g.depth >= p.0.depth);
                            },
                            None => {
                                assert(prim_hit_v(objs[j], r, min, max) is None);
                            },
                        }
                    }
                }
            },
            None => {
                assert(scene_best_v(objs, r, min, max, n) == prev);
                match prev {
                    Some(p) => {
                        assert(prim_hit_v(objs[n - 1], r, min, max) matches Some(g) ==> g.depth
                            >= p.0.depth);
                    },
                    None => {
                        assert(bound == max);
                        assert(prim_hit_v(objs[n - 1], r, min, max) is None);
                    },
                }
            },
        }
    }
}

impl Scene {
    /// A fresh scene holding only the default sky-gradient miss material.
    pub fn new() -> (s: Scene)
        ensures
            scene_wf(s),
            s.objects@.len() == 0,
            s.materials@.len() == 1,
            s.miss == 0,
            s.materials@[0] == default_miss_v(),
    {
        let mut materials: Vec<Material> = Vec::new();
        materials.push(Background::new(Vec4::from3(Fx::new(32768), Fx::new(45875), Fx::one()),
            Fx::one()));
        Scene { objects: Vec::new(), materials, miss: 0 }
    }

    pub fn set_miss_mat(&mut self, mat: u32)
        requires
            (mat as int) < old(self).materials@.len(),
        ensures
            final(self).miss == mat,
            final(self).objects == old(self).objects,
            final(self).materials == old(self).materials,
            scene_wf(*old(self)) ==> scene_wf(*final(self)),
    {
        self.miss = mat;
    }

    pub fn get_miss_mat(&self) -> (m: &Material)
        requires
            scene_wf(*self),
        ensures
            *m == self.materials@[self.miss as int],
    {
        &self.materials[self.miss as usize]
    }

    /// Append a primitive; its material index must already be valid.
    pub fn add_prmitive(&mut self, obj: Primitive) -> (id: u32)
        requires
            (prim_mat_v(obj) as int) < old(self).materials@.len(),
            old(self).objects@.len() < 0xFFFF_FFFF,
        ensures
            final(self).objects@ == old(self).objects@.push(obj),
            final(self).materials == old(self).materials,
            final(self).miss == old(self).miss,
            id as int == old(self).objects@.len(),
            scene_wf(*old(self)) ==> scene_wf(*final(self)),
    {
        self.objects.push(obj);
        (self.objects.len() - 1) as u32
    }

    /// Append a material and return its index.
    pub fn add_mat(&mut self, mat: Material) -> (id: u32)
        requires
            old(self).materials@.len() < 0xFFFF_FFFF,
        ensures
            final(self).materials@ == old(self).materials@.push(mat),
            final(self).objects == old(self).objects,
            final(self).miss == old(self).miss,
            id as int == old(self).materials@.len(),
            scene_wf(*old(self)) ==> scene_wf(*final(self)),
    {
        self.materials.push(mat);
        (self.materials.len() - 1) as u32
    }

    pub fn get_mat(&self, mat: u32) -> (m: &Material)
        requires
            (mat as int) < self.materials@.len(),
        ensures
            *m == self.materials@[mat as int],
    {
        &self.materials[mat as usize]
    }

    /// Wrap the scene in an emissive environment sphere: a large
    /// texture-mapped sphere around the origin whose material is the given
    /// texture. Returns the primitive and material indices.
    pub fn set_envmap(&mut self, tex: Texture) -> (ids: (u32, u32))
        requires
            old(self).materials@.len() < 0xFFFF_FFFE,
            old(self).objects@.len() < 0xFFFF_FFFF,
        ensures
            final(self).materials@.len() == old(self).materials@.len() + 1,
            final(self).objects@.len() == old(self).objects@.len() + 1,
            final(self).miss == old(self).miss,
            ids.1 as int == old(self).materials@.len(),
            ids.0 as int == old(self).objects@.len(),
            final(self).materials@[ids.1 as int] == (Material::Emissive {
                mat: crate::material::Emissive { emissive: tex },
            }),
            final(self).objects@[ids.0 as int] == (Primitive::Sphere {
                obj: crate::primitives::Sphere {
                    pos: Vec4 {
                        x: Fx { raw: 0 },
                        y: Fx { raw: 0 },
                        z: Fx { raw: 0 },
                        w: Fx { raw: 0 },
                    },
                    radius: Fx { raw: 6553600 },
                    compute_uv: true,
                },
                mat: ids.1,
            }),
            forall|i: int|
                0 <= i < old(self).objects@.len() ==> final(self).objects@[i] == #[trigger] old(
                    self,
                ).objects@[i],
            forall|i: int|
                0 <= i < old(self).materials@.len() ==> final(self).materials@[i] == #[trigger] old(
                    self,
                ).materials@[i],
            scene_wf(*old(self)) ==> scene_wf(*final(self)),
    {
        let mat = self.add_mat(crate::material::Emissive::from_texture(tex));
        let sphere = crate::primitives::Sphere::new_with_uv(Vec4::zero(), Fx::from_int(100));
        let id = self.add_prmitive(sphere.primitive(mat));
        (id, mat)
    }

    /// The globally nearest intersection in `(min, max)`: the model is
    /// `scene_hit_v`, and `lemma_scene_best_nearest` relates it to testing
    /// every primitive independently.
    pub fn hit(&self, r: &Ray, out: &mut HitInfo, min: Fx, max: Fx) -> (b: bool)
        ensures
            match scene_hit_v(*self, r@, min@, max@) {
                Some(p) => b && final(out)@ == p.0 && final(out).material == p.1,
                None => !b && *final(out) == *old(out),
            },
    {
        let mut best_info = HitInfo::new();
        best_info.depth = max;
        let mut found = false;

        let mut info = HitInfo::new();
        let mut i: usize = 0;
        while i < self.objects.len()
            invariant
                i <= self.objects@.len(),
                scene_best_v(self.objects@, r@, min@, max@, i as int) == (if found {
                    Some((best_info@, best_info.material))
                } else {
                    None::<(HitV, u32)>
                }),
                !found ==> best_info.depth@ == max@,
            decreases self.objects@.len() - i,
        {
            let bound = best_info.depth;
            if self.objects[i].hit(r, &mut info, min, bound) {
                best_info = info;
                found = true;
            }
            i = i + 1;
        }

        proof {
            lemma_scene_best_in_window(self.objects@, r@, min@, max@, self.objects@.len() as int);
        }
        if min.lt(best_info.depth) && best_info.depth.lt(max) {
            *out = best_info;
            true
        } else {
            false
        }
    }
}

} // verus!
