//! Four-component vectors over fixed-point scalars.
//!
//! `V4` is the mathematical model (raw integer components); every executable
//! operation on `Vec4` is specified as an exact equation over `V4`.

use crate::fixed::{
    fx_abs_v, fx_add_v, fx_clip, fx_div_v, fx_max_v, fx_min_v, fx_mul_v, fx_neg_v, fx_sign_v,
    fx_sqrt_v, fx_sub_v, Fx, FX_ONE,
};
use vstd::prelude::*;

verus! {

/// Mathematical model of a vector: the four raw components.
pub ghost struct V4 {
    pub x: int,
    pub y: int,
    pub z: int,
    pub w: int,
}

pub open spec fn v4(x: int, y: int, z: int, w: int) -> V4 {
    V4 { x: x, y: y, z: z, w: w }
}

pub open spec fn v4_zero() -> V4 {
    v4(0, 0, 0, 0)
}

pub open spec fn v4_one() -> V4 {
    v4(FX_ONE as int, FX_ONE as int, FX_ONE as int, FX_ONE as int)
}

pub open spec fn v4_splat(a: int) -> V4 {
    v4(a, a, a, a)
}

pub open spec fn v4_add(a: V4, b: V4) -> V4 {
    v4(fx_add_v(a.x, b.x), fx_add_v(a.y, b.y), fx_add_v(a.z, b.z), fx_add_v(a.w, b.w))
}

pub open spec fn v4_sub(a: V4, b: V4) -> V4 {
    v4(fx_sub_v(a.x, b.x), fx_sub_v(a.y, b.y), fx_sub_v(a.z, b.z), fx_sub_v(a.w, b.w))
}

pub open spec fn v4_mul(a: V4, b: V4) -> V4 {
    v4(fx_mul_v(a.x, b.x), fx_mul_v(a.y, b.y), fx_mul_v(a.z, b.z), fx_mul_v(a.w, b.w))
}

pub open spec fn v4_div(a: V4, b: V4) -> V4 {
    v4(fx_div_v(a.x, b.x), fx_div_v(a.y, b.y), fx_div_v(a.z, b.z), fx_div_v(a.w, b.w))
}

/// Divide every component by the scalar `k`.
pub open spec fn v4_div_scalar(a: V4, k: int) -> V4 {
    v4(fx_div_v(a.x, k), fx_div_v(a.y, k), fx_div_v(a.z, k), fx_div_v(a.w, k))
}

/// Scale every component by the scalar `k`.
pub open spec fn v4_scale(k: int, a: V4) -> V4 {
    v4(fx_mul_v(k, a.x), fx_mul_v(k, a.y), fx_mul_v(k, a.z), fx_mul_v(k, a.w))
}

pub open spec fn v4_neg(a: V4) -> V4 {
    v4(fx_neg_v(a.x), fx_neg_v(a.y), fx_neg_v(a.z), fx_neg_v(a.w))
}

pub open spec fn v4_abs(a: V4) -> V4 {
    v4(fx_abs_v(a.x), fx_abs_v(a.y), fx_abs_v(a.z), fx_abs_v(a.w))
}

pub open spec fn v4_sign(a: V4) -> V4 {
    v4(fx_sign_v(a.x), fx_sign_v(a.y), fx_sign_v(a.z), fx_sign_v(a.w))
}

pub open spec fn v4_min(a: V4, b: V4) -> V4 {
    v4(fx_min_v(a.x, b.x), fx_min_v(a.y, b.y), fx_min_v(a.z, b.z), fx_min_v(a.w, b.w))
}

pub open spec fn v4_max(a: V4, b: V4) -> V4 {
    v4(fx_max_v(a.x, b.x), fx_max_v(a.y, b.y), fx_max_v(a.z, b.z), fx_max_v(a.w, b.w))
}

pub open spec fn v4_clamp(a: V4, lo: V4, hi: V4) -> V4 {
    v4_min(v4_max(a, lo), hi)
}

pub open spec fn v4_max_elem(a: V4) -> int {
    fx_max_v(a.x, fx_max_v(a.y, fx_max_v(a.z, a.w)))
}

pub open spec fn v4_max_elem3(a: V4) -> int {
    fx_max_v(a.x, fx_max_v(a.y, a.z))
}

/// Four-component dot product, summed left to right.
pub open spec fn v4_dot(a: V4, b: V4) -> int {
    fx_add_v(
        fx_add_v(fx_add_v(fx_mul_v(a.x, b.x), fx_mul_v(a.y, b.y)), fx_mul_v(a.z, b.z)),
        fx_mul_v(a.w, b.w),
    )
}

/// Dot product of the spatial components only.
pub open spec fn v4_dot3(a: V4, b: V4) -> int {
    fx_add_v(fx_add_v(fx_mul_v(a.x, b.x), fx_mul_v(a.y, b.y)), fx_mul_v(a.z, b.z))
}

pub open spec fn v4_sq_len(a: V4) -> int {
    v4_dot(a, a)
}

pub open spec fn v4_sq_len3(a: V4) -> int {
    v4_dot3(a, a)
}

pub open spec fn v4_len(a: V4) -> int {
    fx_sqrt_v(v4_sq_len(a))
}

pub open spec fn v4_len3(a: V4) -> int {
    fx_sqrt_v(v4_sq_len3(a))
}

/// Normalisation by the four-component length.
pub open spec fn v4_norm(a: V4) -> V4 {
    let l = v4_len(a);
    v4(fx_div_v(a.x, l), fx_div_v(a.y, l), fx_div_v(a.z, l), fx_div_v(a.w, l))
}

/// Normalisation of the spatial components; the result's `w` is zero.
pub open spec fn v4_norm3(a: V4) -> V4 {
    let l = v4_len3(a);
    v4(fx_div_v(a.x, l), fx_div_v(a.y, l), fx_div_v(a.z, l), 0)
}

pub open spec fn v4_cross3(a: V4, b: V4) -> V4 {
    v4(
        fx_sub_v(fx_mul_v(a.y, b.z), fx_mul_v(a.z, b.y)),
        fx_sub_v(fx_mul_v(a.z, b.x), fx_mul_v(a.x, b.z)),
        fx_sub_v(fx_mul_v(a.x, b.y), fx_mul_v(a.y, b.x)),
        0,
    )
}

/// Reflection of `d` about `n`: `d - 2*dot(d, n)*n`.
pub open spec fn v4_reflect(d: V4, n: V4) -> V4 {
    let k = fx_mul_v(2 * FX_ONE, v4_dot(d, n));
    v4_sub(d, v4_scale(k, n))
}

pub open spec fn v4_sqrt(a: V4) -> V4 {
    v4(fx_sqrt_v(a.x), fx_sqrt_v(a.y), fx_sqrt_v(a.z), fx_sqrt_v(a.w))
}

pub open spec fn v4_sqrt3(a: V4) -> V4 {
    v4(fx_sqrt_v(a.x), fx_sqrt_v(a.y), fx_sqrt_v(a.z), a.w)
}

/// All four components are non-negative (a valid colour).
pub open spec fn v4_nonneg(a: V4) -> bool {
    a.x >= 0 && a.y >= 0 && a.z >= 0 && a.w >= 0
}

/// Componentwise products of colours stay non-negative.
pub proof fn lemma_v4_mul_nonneg(a: V4, b: V4)
    requires
        v4_nonneg(a),
        v4_nonneg(b),
    ensures
        v4_nonneg(v4_mul(a, b)),
{
    crate::fixed::lemma_fx_mul_nonneg(a.x, b.x);
    crate::fixed::lemma_fx_mul_nonneg(a.y, b.y);
    crate::fixed::lemma_fx_mul_nonneg(a.z, b.z);
    crate::fixed::lemma_fx_mul_nonneg(a.w, b.w);
}

/// Scaling a colour by a non-negative factor stays non-negative.
pub proof fn lemma_v4_scale_nonneg(k: int, a: V4)
    requires
        k >= 0,
        v4_nonneg(a),
    ensures
        v4_nonneg(v4_scale(k, a)),
{
    crate::fixed::lemma_fx_mul_nonneg(k, a.x);
    crate::fixed::lemma_fx_mul_nonneg(k, a.y);
    crate::fixed::lemma_fx_mul_nonneg(k, a.z);
    crate::fixed::lemma_fx_mul_nonneg(k, a.w);
}

/// The mirror identity behind `v4_reflect`, over exact integer arithmetic:
/// for a direction `d` and a normal `n` of squared length `s`, reflecting
/// flips the component of `d` along `n` — with `k = <d, n>`, the reflected
/// vector `s*d - 2*k*n` satisfies `<s*d - 2*k*n, n> == -(k*s)`; for a unit
/// normal (`s == 1`) this is `<reflect(d, n), n> == -<d, n>`.
pub proof fn lemma_reflect_mirror_exact(dx: int, dy: int, dz: int, nx: int, ny: int, nz: int)
    ensures
        ({
            let k = dx * nx + dy * ny + dz * nz;
            let s = nx * nx + ny * ny + nz * nz;
            (s * dx - 2 * k * nx) * nx + (s * dy - 2 * k * ny) * ny + (s * dz - 2 * k * nz) * nz
                == -(k * s)
        }),
{
    let k = dx * nx + dy * ny + dz * nz;
    let s = nx * nx + ny * ny + nz * nz;
    assert((s * dx - 2 * k * nx) * nx == s * (dx * nx) - 2 * k * (nx * nx)) by (nonlinear_arith);
    assert((s * dy - 2 * k * ny) * ny == s * (dy * ny) - 2 * k * (ny * ny)) by (nonlinear_arith);
    assert((s * dz - 2 * k * nz) * nz == s * (dz * nz) - 2 * k * (nz * nz)) by (nonlinear_arith);
    assert(s * (dx * nx) + s * (dy * ny) + s * (dz * nz) == s * k) by (nonlinear_arith)
        requires
            k == dx * nx + dy * ny + dz * nz;
    assert(2 * k * (nx * nx) + 2 * k * (ny * ny) + 2 * k * (nz * nz) == 2 * (k * s))
        by (nonlinear_arith)
        requires
            s == nx * nx + ny * ny + nz * nz;
    assert(s * k - 2 * (k * s) == -(k * s)) by (nonlinear_arith);
}

/// A squared length is never negative.
pub proof fn lemma_v4_sq_len_nonneg(a: V4)
    ensures
        v4_sq_len(a) >= 0,
        v4_sq_len3(a) >= 0,
{
    crate::fixed::lemma_fx_mul_sq_nonneg(a.x);
    crate::fixed::lemma_fx_mul_sq_nonneg(a.y);
    crate::fixed::lemma_fx_mul_sq_nonneg(a.z);
    crate::fixed::lemma_fx_mul_sq_nonneg(a.w);
}

/// A vector of four fixed-point scalars; the first three components are the
/// spatial (or colour) channels, `w` the homogeneous or alpha channel.
#[derive(Clone, Copy, PartialEq, Eq, Structural, Debug)]
pub struct Vec4 {
    pub x: Fx,
    pub y: Fx,
    pub z: Fx,
    pub w: Fx,
}

impl View for Vec4 {
    type V = V4;

    open spec fn view(&self) -> V4 {
        V4 { x: self.x@, y: self.y@, z: self.z@, w: self.w@ }
    }
}

impl Vec4 {
    pub fn new(x: Fx, y: Fx, z: Fx, w: Fx) -> (r: Vec4)
        ensures
            r@ == v4(x@, y@, z@, w@),
    {
        Vec4 { x, y, z, w }
    }

    pub fn from3(x: Fx, y: Fx, z: Fx) -> (r: Vec4)
        ensures
            r@ == v4(x@, y@, z@, 0),
    {
        Vec4 { x, y, z, w: Fx::zero() }
    }

    pub fn zero() -> (r: Vec4)
        ensures
            r@ == v4_zero(),
    {
        Vec4 { x: Fx::zero(), y: Fx::zero(), z: Fx::zero(), w: Fx::zero() }
    }

    pub fn one() -> (r: Vec4)
        ensures
            r@ == v4_one(),
    {
        Vec4 { x: Fx::one(), y: Fx::one(), z: Fx::one(), w: Fx::one() }
    }

    /// All four components set to `v`.
    pub fn splat(v: Fx) -> (r: Vec4)
        ensures
            r@ == v4_splat(v@),
    {
        Vec4 { x: v, y: v, z: v, w: v }
    }

    pub fn x(&self) -> (r: Fx)
        ensures
            r@ == self@.x,
    {
        self.x
    }

    pub fn y(&self) -> (r: Fx)
        ensures
            r@ == self@.y,
    {
        self.y
    }

    pub fn z(&self) -> (r: Fx)
        ensures
            r@ == self@.z,
    {
        self.z
    }

    pub fn w(&self) -> (r: Fx)
        ensures
            r@ == self@.w,
    {
        self.w
    }

    pub fn r(&self) -> (r: Fx)
        ensures
            r@ == self@.x,
    {
        self.x
    }

    pub fn g(&self) -> (r: Fx)
        ensures
            r@ == self@.y,
    {
        self.y
    }

    pub fn b(&self) -> (r: Fx)
        ensures
            r@ == self@.z,
    {
        self.z
    }

    pub fn a(&self) -> (r: Fx)
        ensures
            r@ == self@.w,
    {
        self.w
    }

    pub fn extract(&self) -> (r: (Fx, Fx, Fx, Fx))
        ensures
            r.0@ == self@.x,
            r.1@ == self@.y,
            r.2@ == self@.z,
            r.3@ == self@.w,
    {
        (self.x, self.y, self.z, self.w)
    }

    pub fn extract3(&self) -> (r: (Fx, Fx, Fx))
        ensures
            r.0@ == self@.x,
            r.1@ == self@.y,
            r.2@ == self@.z,
    {
        (self.x, self.y, self.z)
    }

    pub fn extract2(&self) -> (r: (Fx, Fx))
        ensures
            r.0@ == self@.x,
            r.1@ == self@.y,
    {
        (self.x, self.y)
    }

    /// Component selection by index, in `x`, `y`, `z`, `w` order.
    pub open spec fn comp_v(a: V4, i: int) -> int {
        if i == 0 {
            a.x
        } else if i == 1 {
            a.y
        } else if i == 2 {
            a.z
        } else {
            a.w
        }
    }

    pub fn extract1(&self, i: u32) -> (r: Fx)
        requires
            i < 4,
        ensures
            r@ == Vec4::comp_v(self@, i as int),
    {
        if i == 0 {
            self.x
        } else if i == 1 {
            self.y
        } else if i == 2 {
            self.z
        } else {
            self.w
        }
    }

    pub fn swizzle(&self, x: u32, y: u32, z: u32, w: u32) -> (r: Vec4)
        requires
            x < 4,
            y < 4,
            z < 4,
            w < 4,
        ensures
            r@ == v4(
                Vec4::comp_v(self@, x as int),
                Vec4::comp_v(self@, y as int),
                Vec4::comp_v(self@, z as int),
                Vec4::comp_v(self@, w as int),
            ),
    {
        Vec4 {
            x: self.extract1(x),
            y: self.extract1(y),
            z: self.extract1(z),
            w: self.extract1(w),
        }
    }

    pub fn add(self, o: Vec4) -> (r: Vec4)
        ensures
            r@ == v4_add(self@, o@),
    {
        Vec4 { x: self.x.add(o.x), y: self.y.add(o.y), z: self.z.add(o.z), w: self.w.add(o.w) }
    }

    pub fn sub(self, o: Vec4) -> (r: Vec4)
        ensures
            r@ == v4_sub(self@, o@),
    {
        Vec4 { x: self.x.sub(o.x), y: self.y.sub(o.y), z: self.z.sub(o.z), w: self.w.sub(o.w) }
    }

    pub fn mul(self, o: Vec4) -> (r: Vec4)
        ensures
            r@ == v4_mul(self@, o@),
    {
        Vec4 { x: self.x.mul(o.x), y: self.y.mul(o.y), z: self.z.mul(o.z), w: self.w.mul(o.w) }
    }

    pub fn div(self, o: Vec4) -> (r: Vec4)
        ensures
            r@ == v4_div(self@, o@),
    {
        Vec4 { x: self.x.div(o.x), y: self.y.div(o.y), z: self.z.div(o.z), w: self.w.div(o.w) }
    }

    /// Multiply every component by the scalar `k`.
    pub fn scale(self, k: Fx) -> (r: Vec4)
        ensures
            r@ == v4_scale(k@, self@),
    {
        Vec4 { x: k.mul(self.x), y: k.mul(self.y), z: k.mul(self.z), w: k.mul(self.w) }
    }

    /// Divide every component by the scalar `k`.
    pub fn div_scalar(self, k: Fx) -> (r: Vec4)
        ensures
            r@ == v4_div_scalar(self@, k@),
    {
        Vec4 { x: self.x.div(k), y: self.y.div(k), z: self.z.div(k), w: self.w.div(k) }
    }

    pub fn neg(self) -> (r: Vec4)
        ensures
            r@ == v4_neg(self@),
    {
        Vec4 { x: self.x.neg(), y: self.y.neg(), z: self.z.neg(), w: self.w.neg() }
    }

    pub fn abs(self) -> (r: Vec4)
        ensures
            r@ == v4_abs(self@),
    {
        Vec4 { x: self.x.abs(), y: self.y.abs(), z: self.z.abs(), w: self.w.abs() }
    }

    /// Per-component sign: `-1`, `0` or `1` (as fixed-point units).
    pub fn sign(self) -> (r: Vec4)
        ensures
            r@ == v4_sign(self@),
    {
        Vec4 { x: self.x.sign(), y: self.y.sign(), z: self.z.sign(), w: self.w.sign() }
    }

    pub fn min(self, o: Vec4) -> (r: Vec4)
        ensures
            r@ == v4_min(self@, o@),
    {
        Vec4 { x: self.x.min(o.x), y: self.y.min(o.y), z: self.z.min(o.z), w: self.w.min(o.w) }
    }

    pub fn max(self, o: Vec4) -> (r: Vec4)
        ensures
            r@ == v4_max(self@, o@),
    {
        Vec4 { x: self.x.max(o.x), y: self.y.max(o.y), z: self.z.max(o.z), w: self.w.max(o.w) }
    }

    pub fn clamp(self, lo: Vec4, hi: Vec4) -> (r: Vec4)
        ensures
            r@ == v4_clamp(self@, lo@, hi@),
    {
        self.max(lo).min(hi)
    }

    pub fn clamp_scalar(self, lo: Fx, hi: Fx) -> (r: Vec4)
        ensures
            r@ == v4_clamp(self@, v4_splat(lo@), v4_splat(hi@)),
    {
        self.max(Vec4::splat(lo)).min(Vec4::splat(hi))
    }

    pub fn max_elem(self) -> (r: Fx)
        ensures
            r@ == v4_max_elem(self@),
    {
        self.x.max(self.y.max(self.z.max(self.w)))
    }

    pub fn max_elem3(self) -> (r: Fx)
        ensures
            r@ == v4_max_elem3(self@),
    {
        self.x.max(self.y.max(self.z))
    }

    pub fn dot(&self, o: &Vec4) -> (r: Fx)
        ensures
            r@ == v4_dot(self@, o@),
    {
        self.x.mul(o.x).add(self.y.mul(o.y)).add(self.z.mul(o.z)).add(self.w.mul(o.w))
    }

    pub fn dot3(&self, o: &Vec4) -> (r: Fx)
        ensures
            r@ == v4_dot3(self@, o@),
    {
        self.x.mul(o.x).add(self.y.mul(o.y)).add(self.z.mul(o.z))
    }

    pub fn square_length(&self) -> (r: Fx)
        ensures
            r@ == v4_sq_len(self@),
    {
        self.dot(self)
    }

    pub fn square_length3(&self) -> (r: Fx)
        ensures
            r@ == v4_sq_len3(self@),
    {
        self.dot3(self)
    }

    pub fn length(&self) -> (r: Fx)
        ensures
            r@ == v4_len(self@),
    {
        self.square_length().sqrt()
    }

    pub fn length3(&self) -> (r: Fx)
        ensures
            r@ == v4_len3(self@),
    {
        self.square_length3().sqrt()
    }

    /// The vector scaled to four-component unit length (zero stays zero).
    pub fn norm(&self) -> (r: Vec4)
        ensures
            r@ == v4_norm(self@),
    {
        let l = self.length();
        Vec4 { x: self.x.div(l), y: self.y.div(l), z: self.z.div(l), w: self.w.div(l) }
    }

    /// The spatial components scaled to unit length; `w` is cleared.
    pub fn norm3(&self) -> (r: Vec4)
        ensures
            r@ == v4_norm3(self@),
    {
        let l = self.length3();
        Vec4 { x: self.x.div(l), y: self.y.div(l), z: self.z.div(l), w: Fx::zero() }
    }

    pub fn normalize(&mut self)
        ensures
            final(self)@ == v4_norm(old(self)@),
    {
        *self = self.norm();
    }

    pub fn normalize3(&mut self)
        ensures
            final(self)@ == v4_norm3(old(self)@),
    {
        *self = self.norm3();
    }

    pub fn cross3(&self, o: &Vec4) -> (r: Vec4)
        ensures
            r@ == v4_cross3(self@, o@),
    {
        Vec4 {
            x: self.y.mul(o.z).sub(self.z.mul(o.y)),
            y: self.z.mul(o.x).sub(self.x.mul(o.z)),
            z: self.x.mul(o.y).sub(self.y.mul(o.x)),
            w: Fx::zero(),
        }
    }

    pub fn cross3_trimmed(&self, o: &Vec4) -> (r: Vec4)
        ensures
            r@ == v4_cross3(self@, o@),
    {
        self.cross3(o)
    }

    pub fn cross3_validate(&self, o: &Vec4) -> (r: Vec4)
        ensures
            r@ == v4_cross3(self@, o@),
    {
        Vec4::new(
            self.y().mul(o.z()).sub(self.z().mul(o.y())),
            self.z().mul(o.x()).sub(self.x().mul(o.z())),
            self.x().mul(o.y()).sub(self.y().mul(o.x())),
            Fx::zero(),
        )
    }

    /// Reflect this direction about the normal `n`.
    pub fn reflect(&self, n: &Vec4) -> (r: Vec4)
        ensures
            r@ == v4_reflect(self@, n@),
    {
        let k = Fx::from_int(2).mul(self.dot(n));
        proof {
            assert(fx_clip(2int * 65536) == 2 * FX_ONE);
        }
        self.sub(n.scale(k))
    }

    pub fn sqrt(&self) -> (r: Vec4)
        ensures
            r@ == v4_sqrt(self@),
    {
        Vec4 { x: self.x.sqrt(), y: self.y.sqrt(), z: self.z.sqrt(), w: self.w.sqrt() }
    }

    pub fn sqrt3(&self) -> (r: Vec4)
        ensures
            r@ == v4_sqrt3(self@),
    {
        Vec4 { x: self.x.sqrt(), y: self.y.sqrt(), z: self.z.sqrt(), w: self.w }
    }
}

} // verus!
