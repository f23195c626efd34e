//! Geometric primitives and their intersection tests: sphere, plane and
//! axis-aligned box, each paired with a material index.
//!
//! Every `hit` has a deterministic mathematical model (`sphere_hit_v`,
//! `plane_hit_v`, `bbox_hit_v`, `prim_hit_v`); the executable tests are
//! proved to return exactly what the model says.

use crate::fixed::{
    fx_abs_v, fx_add_v, fx_clamp_v, fx_div_v, fx_mul_v, fx_neg_v, fx_sqrt_v, fx_sub_v, Fx, FX_ONE,
};
use crate::hit::{HitInfo, HitV};
use crate::ray::{ray_point_at_v, Ray, RayV};
use crate::vec::{
    v4_abs, v4_div, v4_div_scalar, v4_dot, v4_max_elem3, v4_mul, v4_neg, v4_one, v4_sign, v4_sub,
    v4_sq_len, Vec4, V4,
};
use vstd::prelude::*;

verus! {

//######################################################################
// Sphere
//######################################################################

#[derive(Clone, Copy, PartialEq, Eq, Structural, Debug)]
pub struct Sphere {
    pub pos: Vec4,
    pub radius: Fx,
    pub compute_uv: bool,
}

/// Pseudo-angle of the point `(b, a)`, a piecewise-rational stand-in for
/// `atan2(a, b)`: monotone around the circle, in `[0, 4]` fixed-point units.
pub open spec fn diamond_v(a: int, b: int) -> int {
    let s = fx_add_v(fx_abs_v(a), fx_abs_v(b));
    if s == 0 {
        0
    } else {
        let t = fx_div_v(a, s);
        if b >= 0 {
            if a >= 0 {
                t
            } else {
                fx_add_v(4 * FX_ONE, t)
            }
        } else {
            fx_sub_v(2 * FX_ONE, t)
        }
    }
}

/// Longitude texture coordinate of a unit normal, in `[0, 1]`.
pub open spec fn sphere_u_v(n: V4) -> int {
    fx_clamp_v(fx_mul_v(diamond_v(n.z, n.x), 16384), 0, FX_ONE as int)
}

/// Latitude texture coordinate of a unit normal (linear in its height), in `[0, 1]`.
pub open spec fn sphere_vc_v(n: V4) -> int {
    fx_clamp_v(fx_mul_v(fx_sub_v(FX_ONE as int, n.y), 32768), 0, FX_ONE as int)
}

/// Squared length of the ray direction (`a` in `a t^2 + 2 b t + c = 0`).
pub open spec fn sphere_qa_v(s: Sphere, r: RayV) -> int {
    v4_sq_len(r.direction)
}

pub open spec fn sphere_qb_v(s: Sphere, r: RayV) -> int {
    v4_dot(v4_sub(r.origin, s.pos@), r.direction)
}

pub open spec fn sphere_qc_v(s: Sphere, r: RayV) -> int {
    fx_sub_v(v4_sq_len(v4_sub(r.origin, s.pos@)), fx_mul_v(s.radius@, s.radius@))
}

pub open spec fn sphere_disc_v(s: Sphere, r: RayV) -> int {
    fx_sub_v(
        fx_mul_v(sphere_qb_v(s, r), sphere_qb_v(s, r)),
        fx_mul_v(sphere_qa_v(s, r), sphere_qc_v(s, r)),
    )
}

/// The nearer quadratic root `(-b - sqrt(disc)) / a`.
pub open spec fn sphere_root1_v(s: Sphere, r: RayV) -> int {
    fx_div_v(
        fx_sub_v(fx_neg_v(sphere_qb_v(s, r)), fx_sqrt_v(sphere_disc_v(s, r))),
        sphere_qa_v(s, r),
    )
}

/// The farther quadratic root `(-b + sqrt(disc)) / a`.
pub open spec fn sphere_root2_v(s: Sphere, r: RayV) -> int {
    fx_div_v(
        fx_add_v(fx_neg_v(sphere_qb_v(s, r)), fx_sqrt_v(sphere_disc_v(s, r))),
        sphere_qa_v(s, r),
    )
}

/// The hit record the sphere reports for a ray accepted at depth `d`.
pub open spec fn sphere_hit_at_v(s: Sphere, r: RayV, d: int) -> HitV {
    let point = ray_point_at_v(r, d);
    let normal = v4_div_scalar(v4_sub(point, s.pos@), s.radius@);
    HitV {
        point: point,
        normal: normal,
        depth: d,
        u: if s.compute_uv {
            sphere_u_v(normal)
        } else {
            0
        },
        v: if s.compute_uv {
            sphere_vc_v(normal)
        } else {
            0
        },
    }
}

/// Model of the sphere test: positive discriminant, then the nearer root if
/// it lies in `(min, max)`, else the farther root, else no hit.
pub open spec fn sphere_hit_v(s: Sphere, r: RayV, min: int, max: int) -> Option<HitV> {
    if sphere_disc_v(s, r) > 0 {
        let d1 = sphere_root1_v(s, r);
        if min < d1 && d1 < max {
            Some(sphere_hit_at_v(s, r, d1))
        } else {
            let d2 = sphere_root2_v(s, r);
            if min < d2 && d2 < max {
                Some(sphere_hit_at_v(s, r, d2))
            } else {
                None
            }
        }
    } else {
        None
    }
}

/// Executable pseudo-angle; see `diamond_v`.
fn diamond(a: Fx, b: Fx) -> (r: Fx)
    ensures
        r@ == diamond_v(a@, b@),
{
    let s = a.abs().add(b.abs());
    if s.raw == 0 {
        Fx::zero()
    } else {
        let t = a.div(s);
        if b.raw >= 0 {
            if a.raw >= 0 {
                t
            } else {
                Fx::new(4 * FX_ONE).add(t)
            }
        } else {
            Fx::new(2 * FX_ONE).sub(t)
        }
    }
}

fn sphere_u(n: &Vec4) -> (r: Fx)
    ensures
        r@ == sphere_u_v(n@),
{
    diamond(n.z(), n.x()).mul(Fx::new(16384)).clamp(Fx::zero(), Fx::one())
}

fn sphere_vc(n: &Vec4) -> (r: Fx)
    ensures
        r@ == sphere_vc_v(n@),
{
    Fx::one().sub(n.y()).mul(Fx::new(32768)).clamp(Fx::zero(), Fx::one())
}

impl Sphere {
    pub fn new(pos: Vec4, radius: Fx) -> (s: Sphere)
        ensures
            s == (Sphere { pos, radius, compute_uv: false }),
    {
        Sphere { pos, radius, compute_uv: false }
    }

    pub fn new_with_uv(pos: Vec4, radius: Fx) -> (s: Sphere)
        ensures
            s == (Sphere { pos, radius, compute_uv: true }),
    {
        Sphere { pos, radius, compute_uv: true }
    }

    pub fn primitive(&self, mat: u32) -> (p: Primitive)
        ensures
            p == (Primitive::Sphere { obj: *self, mat }),
    {
        Primitive::Sphere { obj: *self, mat }
    }

    pub fn hit(&self, r: &Ray, out: &mut HitInfo, min: Fx, max: Fx) -> (b: bool)
        ensures
            match sphere_hit_v(*self, r@, min@, max@) {
                Some(h) => b && final(out)@ == h && final(out).material == old(out).material,
                None => !b && *final(out) == *old(out),
            },
    {
        let op = r.origin.sub(self.pos);
        let qa = r.direction.square_length();
        let qb = op.dot(&r.direction);
        let qc = op.square_length().sub(self.radius.mul(self.radius));
        let disc = qb.mul(qb).sub(qa.mul(qc));

        if disc.raw > 0 {
            let sq = disc.sqrt();
            let d1 = qb.neg().sub(sq).div(qa);
            let mut depth = d1;
            let mut valid = min.lt(d1) && d1.lt(max);
            if !valid {
                let d2 = qb.neg().add(sq).div(qa);
                depth = d2;
                valid = min.lt(d2) && d2.lt(max);
            }
            if valid {
                let point = r.point_at(depth);
                let normal = point.sub(self.pos).div_scalar(self.radius);
                out.depth = depth;
                out.point = point;
                out.normal = normal;
                if self.compute_uv {
                    out.u = sphere_u(&normal);
                    out.v = sphere_vc(&normal);
                } else {
                    out.u = Fx::zero();
                    out.v = Fx::zero();
                }
                return true;
            }
            false
        } else {
            false
        }
    }
}

//######################################################################
// Plane
//######################################################################

#[derive(Clone, Copy, PartialEq, Eq, Structural, Debug)]
pub struct Plane {
    pub pos: Vec4,
    pub normal: Vec4,
}

/// Model of the plane test: rays parallel to the plane or facing its back
/// side report no hit; otherwise the single linear root must lie in window.
pub open spec fn plane_hit_v(p: Plane, r: RayV, min: int, max: int) -> Option<HitV> {
    let denom = v4_dot(p.normal@, r.direction);
    if denom > 0 {
        let d = fx_div_v(v4_dot(v4_sub(p.pos@, r.origin), p.normal@), denom);
        if min < d && d < max {
            Some(
                HitV {
                    point: ray_point_at_v(r, d),
                    normal: p.normal@,
                    depth: d,
                    u: 0,
                    v: 0,
                },
            )
        } else {
            None
        }
    } else {
        None
    }
}

impl Plane {
    pub fn new(pos: Vec4, normal: Vec4) -> (p: Plane)
        ensures
            p == (Plane { pos, normal }),
    {
        Plane { pos, normal }
    }

    pub fn primitive(&self, mat: u32) -> (p: Primitive)
        ensures
            p == (Primitive::Plane { obj: *self, mat }),
    {
        Primitive::Plane { obj: *self, mat }
    }

    pub fn hit(&self, r: &Ray, out: &mut HitInfo, min: Fx, max: Fx) -> (b: bool)
        ensures
            match plane_hit_v(*self, r@, min@, max@) {
                Some(h) => b && final(out)@ == h && final(out).material == old(out).material,
                None => !b && *final(out) == *old(out),
            },
    {
        let denom = self.normal.dot(&r.direction);
        if denom.raw > 0 {
            let depth = self.pos.sub(r.origin).dot(&self.normal).div(denom);
            if min.lt(depth) && depth.lt(max) {
                out.depth = depth;
                out.normal = self.normal;
                out.point = r.point_at(depth);
                out.u = Fx::zero();
                out.v = Fx::zero();
                return true;
            }
        }
        false
    }
}

//######################################################################
// BBox
//######################################################################

#[derive(Clone, Copy, PartialEq, Eq, Structural, Debug)]
pub struct BBox {
    pub center: Vec4,
    pub dimensions: Vec4,
    pub inv_dimensions: Vec4,
}

/// Component `i` of a model vector, in `x`, `y`, `z` order.
pub open spec fn comp3_v(a: V4, i: int) -> int {
    if i == 0 {
        a.x
    } else if i == 1 {
        a.y
    } else {
        a.z
    }
}

/// `-1` if the ray starts inside the box (its faces are tested from within),
/// `+1` otherwise, as a fixed-point scalar.
pub open spec fn bbox_winding_v(bb: BBox, r: RayV) -> int {
    if v4_max_elem3(v4_mul(v4_abs(v4_sub(r.origin, bb.center@)), bb.inv_dimensions@)) < FX_ONE {
        -FX_ONE as int
    } else {
        FX_ONE as int
    }
}

/// Distance along the ray to the candidate face plane of axis `u`.
pub open spec fn bbox_axis_t_v(bb: BBox, r: RayV, u: int) -> int {
    let ro = v4_sub(r.origin, bb.center@);
    let sgn = v4_neg(v4_sign(r.direction));
    let face = fx_mul_v(
        fx_mul_v(comp3_v(bb.dimensions@, u), comp3_v(sgn, u)),
        bbox_winding_v(bb, r),
    );
    fx_div_v(fx_sub_v(face, comp3_v(ro, u)), comp3_v(r.direction, u))
}

/// Whether the candidate point of axis `u` lies within the face's bounds
/// along the two other axes `v` and `w`.
pub open spec fn bbox_axis_ok_v(bb: BBox, r: RayV, u: int, v: int, w: int) -> bool {
    let ro = v4_sub(r.origin, bb.center@);
    let t = bbox_axis_t_v(bb, r, u);
    &&& fx_abs_v(fx_add_v(comp3_v(ro, v), fx_mul_v(comp3_v(r.direction, v), t))) < comp3_v(
        bb.dimensions@,
        v,
    )
    &&& fx_abs_v(fx_add_v(comp3_v(ro, w), fx_mul_v(comp3_v(r.direction, w), t))) < comp3_v(
        bb.dimensions@,
        w,
    )
}

/// The candidate distance of axis `u`, or zero when its face is missed.
pub open spec fn bbox_cand_v(bb: BBox, r: RayV, u: int, v: int, w: int) -> int {
    if bbox_axis_ok_v(bb, r, u, v, w) {
        bbox_axis_t_v(bb, r, u)
    } else {
        0
    }
}

/// The first nonzero candidate in `x`, `y`, `z` order.
pub open spec fn bbox_depth_v(bb: BBox, r: RayV) -> int {
    let cx = bbox_cand_v(bb, r, 0, 1, 2);
    let cy = bbox_cand_v(bb, r, 1, 2, 0);
    let cz = bbox_cand_v(bb, r, 2, 0, 1);
    if cx != 0 {
        cx
    } else if cy != 0 {
        cy
    } else {
        cz
    }
}

/// The outward axis signs of the faces that were actually struck.
pub open spec fn bbox_normal_v(bb: BBox, r: RayV) -> V4 {
    let sgn = v4_neg(v4_sign(r.direction));
    V4 {
        x: if bbox_axis_ok_v(bb, r, 0, 1, 2) {
            sgn.x
        } else {
            0
        },
        y: if bbox_axis_ok_v(bb, r, 1, 2, 0) {
            sgn.y
        } else {
            0
        },
        z: if bbox_axis_ok_v(bb, r, 2, 0, 1) {
            sgn.z
        } else {
            0
        },
        w: 0,
    }
}

/// Model of the slab test with the `x -> y -> z` tie-break.
pub open spec fn bbox_hit_v(bb: BBox, r: RayV, min: int, max: int) -> Option<HitV> {
    let d = bbox_depth_v(bb, r);
    if min < d && d < max {
        Some(
            HitV {
                point: ray_point_at_v(r, d),
                normal: bbox_normal_v(bb, r),
                depth: d,
                u: 0,
                v: 0,
            },
        )
    } else {
        None
    }
}

impl BBox {
    pub fn new(center: Vec4, dimensions: Vec4) -> (b: BBox)
        ensures
            b.center == center,
            b.dimensions == dimensions,
            b.inv_dimensions@ == v4_div(v4_one(), dimensions@),
    {
        BBox { center, dimensions, inv_dimensions: Vec4::one().div(dimensions) }
    }

    pub fn primitive(&self, mat: u32) -> (p: Primitive)
        ensures
            p == (Primitive::BBox { obj: *self, mat }),
    {
        Primitive::BBox { obj: *self, mat }
    }

    pub fn hit(&self, r: &Ray, out: &mut HitInfo, min: Fx, max: Fx) -> (b: bool)
        ensures
            match bbox_hit_v(*self, r@, min@, max@) {
                Some(h) => b && final(out)@ == h && final(out).material == old(out).material,
                None => !b && *final(out) == *old(out),
            },
    {
        let ro = r.origin.sub(self.center);
        let sgn = r.direction.sign().neg();
        let wind = if ro.abs().mul(self.inv_dimensions).max_elem3().lt(Fx::one()) {
            Fx::one().neg()
        } else {
            Fx::one()
        };

        let tx = self.dimensions.x().mul(sgn.x()).mul(wind).sub(ro.x()).div(r.direction.x());
        let okx = ro.y().add(r.direction.y().mul(tx)).abs().lt(self.dimensions.y()) && ro.z().add(
            r.direction.z().mul(tx),
        ).abs().lt(self.dimensions.z());

        let ty = self.dimensions.y().mul(sgn.y()).mul(wind).sub(ro.y()).div(r.direction.y());
        let oky = ro.z().add(r.direction.z().mul(ty)).abs().lt(self.dimensions.z()) && ro.x().add(
            r.direction.x().mul(ty),
        ).abs().lt(self.dimensions.x());

        let tz = self.dimensions.z().mul(sgn.z()).mul(wind).sub(ro.z()).div(r.direction.z());
        let okz = ro.x().add(r.direction.x().mul(tz)).abs().lt(self.dimensions.x()) && ro.y().add(
            r.direction.y().mul(tz),
        ).abs().lt(self.dimensions.y());

        let cx = if okx {
            tx
        } else {
            Fx::zero()
        };
        let cy = if oky {
            ty
        } else {
            Fx::zero()
        };
        let cz = if okz {
            tz
        } else {
            Fx::zero()
        };

        let depth = if cx.raw != 0 {
            cx
        } else if cy.raw != 0 {
            cy
        } else {
            cz
        };

        if min.lt(depth) && depth.lt(max) {
            out.depth = depth;
            out.point = r.point_at(depth);
            out.normal = Vec4::new(
                if okx {
                    sgn.x()
                } else {
                    Fx::zero()
                },
                if oky {
                    sgn.y()
                } else {
                    Fx::zero()
                },
                if okz {
                    sgn.z()
                } else {
                    Fx::zero()
                },
                Fx::zero(),
            );
            out.u = Fx::zero();
            out.v = Fx::zero();
            true
        } else {
            false
        }
    }
}

//######################################################################
// Primitive
//######################################################################

#[allow(inconsistent_fields)]
#[derive(Clone, Copy, PartialEq, Eq, Structural, Debug)]
pub enum Primitive {
    Sphere { obj: Sphere, mat: u32 },
    Plane { obj: Plane, mat: u32 },
    BBox { obj: BBox, mat: u32 },
}

/// The material index a primitive carries.
pub open spec fn prim_mat_v(p: Primitive) -> u32 {
    match p {
        Primitive::Sphere { obj, mat } => mat,
        Primitive::Plane { obj, mat } => mat,
        Primitive::BBox { obj, mat } => mat,
    }
}

/// Model of the dispatching test: the shape's own model.
pub open spec fn prim_hit_v(p: Primitive, r: RayV, min: int, max: int) -> Option<HitV> {
    match p {
        Primitive::Sphere { obj, mat } => sphere_hit_v(obj, r, min, max),
        Primitive::Plane { obj, mat } => plane_hit_v(obj, r, min, max),
        Primitive::BBox { obj, mat } => bbox_hit_v(obj, r, min, max),
    }
}

impl Primitive {
    /// Dispatch to the shape's test; on a hit, attach this primitive's
    /// material index to the record.
    pub fn hit(&self, r: &Ray, out: &mut HitInfo, min: Fx, max: Fx) -> (b: bool)
        ensures
            match prim_hit_v(*self, r@, min@, max@) {
                Some(h) => b && final(out)@ == h && final(out).material == prim_mat_v(*self),
                None => !b && *final(out) == *old(out),
            },
    {
        let hit = match self {
            Primitive::Sphere { obj, mat } => obj.hit(r, out, min, max),
            Primitive::Plane { obj, mat } => obj.hit(r, out, min, max),
            Primitive::BBox { obj, mat } => obj.hit(r, out, min, max),
        };
        if hit {
            out.material = match self {
                Primitive::Sphere { obj, mat } => *mat,
                Primitive::Plane { obj, mat } => *mat,
                Primitive::BBox { obj, mat } => *mat,
            };
        }
        hit
    }
}

/// The quadratic's leading coefficient is a squared length, so it is never
/// negative, and the nearer root never exceeds the farther one.
pub proof fn lemma_sphere_roots_ordered(s: Sphere, r: RayV)
    ensures
        sphere_qa_v(s, r) >= 0,
        sphere_root1_v(s, r) <= sphere_root2_v(s, r),
{
    crate::vec::lemma_v4_sq_len_nonneg(r.direction);
    crate::fixed::lemma_fx_sqrt_nonneg(sphere_disc_v(s, r));
    let b = sphere_qb_v(s, r);
    let sq = fx_sqrt_v(sphere_disc_v(s, r));
    let a = sphere_qa_v(s, r);
    if a > 0 {
        crate::fixed::lemma_fx_div_mono_num(
            fx_sub_v(fx_neg_v(b), sq),
            fx_add_v(fx_neg_v(b), sq),
            a,
        );
    }
}

/// Self-intersection avoidance: a ray whose origin lies exactly on the
/// sphere's surface (`c == 0` in the quadratic) and points outward
/// (`b > 0`) reports no hit in any window with a non-negative near bound —
/// both roots lie at or behind the origin.
pub proof fn lemma_sphere_surface_outward_no_hit(s: Sphere, r: RayV, min: int, max: int)
    requires
        sphere_qc_v(s, r) == 0,
        sphere_qb_v(s, r) > 0,
        min >= 0,
    ensures
        sphere_hit_v(s, r, min, max) is None,
{
    let b = sphere_qb_v(s, r);
    let a = sphere_qa_v(s, r);
    crate::vec::lemma_v4_sq_len_nonneg(r.direction);
    assert(fx_mul_v(a, 0) == 0) by {
        assert(a * 0 == 0) by (nonlinear_arith);
    }
    let disc = sphere_disc_v(s, r);
    crate::fixed::lemma_fx_mul_sq_nonneg(b);
    if disc > 0 {
        let sq = fx_sqrt_v(disc);
        assert(sq <= b) by {
            let q = crate::fixed::tdiv(b * b, 65536);
            assert(b * b >= 0) by (nonlinear_arith);
            vstd::arithmetic::div_mod::lemma_fundamental_div_mod(b * b, 65536);
            assert(q * 65536 <= b * b) by (nonlinear_arith)
                requires
                    b * b == 65536 * q + (b * b) % 65536,
                    (b * b) % 65536 >= 0;
            assert(disc <= q);
            assert(disc * 65536 <= b * b) by (nonlinear_arith)
                requires
                    disc <= q,
                    q * 65536 <= b * b;
            crate::fixed::lemma_isqrt_mono((disc * 65536) as nat, (b * b) as nat);
            assert(b * b < (b + 1) * (b + 1)) by (nonlinear_arith)
                requires
                    b > 0;
            crate::fixed::lemma_isqrt_is((b * b) as nat, b as nat);
        }
        assert(fx_sub_v(fx_neg_v(b), sq) <= 0);
        assert(fx_add_v(fx_neg_v(b), sq) <= 0);
        if a > 0 {
            crate::fixed::lemma_fx_div_nonpos(fx_sub_v(fx_neg_v(b), sq), a);
            crate::fixed::lemma_fx_div_nonpos(fx_add_v(fx_neg_v(b), sq), a);
        }
        assert(!(min < sphere_root1_v(s, r)));
        assert(!(min < sphere_root2_v(s, r)));
    }
}

/// The nearer root wins: whenever the discriminant is positive and the
/// nearer root lies inside the window, it is the accepted depth, and it
/// never exceeds the farther root.
pub proof fn lemma_sphere_nearer_root_selected(s: Sphere, r: RayV, min: int, max: int)
    requires
        sphere_disc_v(s, r) > 0,
        min < sphere_root1_v(s, r) < max,
    ensures
        sphere_hit_v(s, r, min, max) == Some(sphere_hit_at_v(s, r, sphere_root1_v(s, r))),
        sphere_root1_v(s, r) <= sphere_root2_v(s, r),
{
    lemma_sphere_roots_ordered(s, r);
}

/// The two root numerators lie symmetric about `-b`: their sum is exactly
/// `2 * (-b)` whenever neither saturates the scalar range.
pub proof fn lemma_sphere_roots_symmetric(s: Sphere, r: RayV)
    requires
        crate::fixed::int_abs(
            fx_neg_v(sphere_qb_v(s, r)) - fx_sqrt_v(sphere_disc_v(s, r)),
        ) <= crate::fixed::FX_MAX_RAW,
        crate::fixed::int_abs(
            fx_neg_v(sphere_qb_v(s, r)) + fx_sqrt_v(sphere_disc_v(s, r)),
        ) <= crate::fixed::FX_MAX_RAW,
    ensures
        fx_sub_v(fx_neg_v(sphere_qb_v(s, r)), fx_sqrt_v(sphere_disc_v(s, r))) + fx_add_v(
            fx_neg_v(sphere_qb_v(s, r)),
            fx_sqrt_v(sphere_disc_v(s, r)),
        ) == 2 * fx_neg_v(sphere_qb_v(s, r)),
{
}

/// A reported hit of any primitive lies strictly inside the query window.
pub proof fn lemma_prim_hit_in_window(p: Primitive, r: RayV, min: int, max: int)
    ensures
        prim_hit_v(p, r, min, max) matches Some(h) ==> min < h.depth && h.depth < max,
{
}

/// Narrowing the far bound of the sphere test keeps exactly the hits that
/// were nearer than the new bound.
pub proof fn lemma_sphere_hit_window(s: Sphere, r: RayV, min: int, max: int, max2: int)
    requires
        max2 <= max,
    ensures
        sphere_hit_v(s, r, min, max2) == (match sphere_hit_v(s, r, min, max) {
            Some(h) => if h.depth < max2 {
                Some(h)
            } else {
                None
            },
            None => None::<HitV>,
        }),
{
    lemma_sphere_roots_ordered(s, r);
}

/// Narrowing the far bound of any primitive's test keeps exactly the hits
/// that were nearer than the new bound.
pub proof fn lemma_prim_hit_window(p: Primitive, r: RayV, min: int, max: int, max2: int)
    requires
        max2 <= max,
    ensures
        prim_hit_v(p, r, min, max2) == (match prim_hit_v(p, r, min, max) {
            Some(h) => if h.depth < max2 {
                Some(h)
            } else {
                None
            },
            None => None::<HitV>,
        }),
{
    match p {
        Primitive::Sphere { obj, mat } => lemma_sphere_hit_window(obj, r, min, max, max2),
        Primitive::Plane { obj, mat } => {},
        Primitive::BBox { obj, mat } => {},
    }
}

} // verus!
