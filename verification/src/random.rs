//! Random sampling for jitter and diffuse bounces.
//!
//! A single trusted item draws raw randomness; everything built on top of it
//! is verified, stating what holds of every possible outcome.

use crate::fixed::{fx_add_v, fx_div_v, fx_mul_v, fx_sqrt_v, Fx, FX_ONE};
use crate::vec::{v4, v4_norm, v4_norm3, Vec4, V4};
use vstd::prelude::*;

verus! {

/// Relies on `rand::random`: a uniformly distributed 64-bit value drawn from
/// the thread-local generator. Nothing is assumed of the result.
#[verifier::external_body]
fn random_u64() -> u64 {
    rand::random::<u64>()
}

/// A random scalar in `[0, 1)`.
pub fn random_unit() -> (r: Fx)
    ensures
        0 <= r@ < FX_ONE,
{
    let v = random_u64();
    Fx::new((v % 65536) as i64)
}

/// A random scalar in `[-1, 1]`.
pub fn random_signed_unit() -> (r: Fx)
    ensures
        -FX_ONE <= r@ <= FX_ONE,
{
    let v = random_u64();
    Fx::new(((v % 131073) as i64) - 65536)
}

/// A pair of random scalars, each within `[min, max]`.
pub fn random_tuple(min: Fx, max: Fx) -> (r: (Fx, Fx))
    requires
        min@ <= max@,
        -0x40_0000_0000 <= min@,
        max@ <= 0x40_0000_0000,
    ensures
        min@ <= r.0@ <= max@,
        min@ <= r.1@ <= max@,
{
    (random_range(min, max), random_range(min, max))
}

/// A random scalar within `[min, max]`.
pub fn random_range(min: Fx, max: Fx) -> (r: Fx)
    requires
        min@ <= max@,
        -0x40_0000_0000 <= min@,
        max@ <= 0x40_0000_0000,
    ensures
        min@ <= r@ <= max@,
{
    let f = random_unit();
    let d = max.sub(min);
    let o = f.mul(d);
    proof {
        lemma_frac_scale_bounds(f@, d@);
    }
    min.add(o)
}

/// Scaling a length `d` by a fraction in `[0, 1)` keeps it in `[0, d]`.
proof fn lemma_frac_scale_bounds(f: int, d: int)
    requires
        0 <= f < FX_ONE,
        0 <= d,
    ensures
        0 <= fx_mul_v(f, d) <= d,
{
    assert(0 <= f * d <= 65536 * d) by (nonlinear_arith)
        requires
            0 <= f <= 65536,
            0 <= d;
    crate::fixed::lemma_tdiv_mono(0, f * d, 65536);
    crate::fixed::lemma_tdiv_mono(f * d, 65536 * d, 65536);
    assert(crate::fixed::tdiv(65536 * d, 65536) == d) by {
        vstd::arithmetic::div_mod::lemma_div_by_multiple(d, 65536);
        assert(65536 * d == d * 65536) by (nonlinear_arith);
    }
    assert(crate::fixed::tdiv(0, 65536) == 0);
}

/// Whether `p` is a point the square-root-free sphere sampler can produce:
/// the normalisation of a vector drawn from the unit cube's positive octant.
pub open spec fn on_unit_sample_v(p: V4) -> bool {
    exists|a: int, b: int, c: int|
        0 <= a < FX_ONE && 0 <= b < FX_ONE && 0 <= c < FX_ONE && p == v4_norm(v4(a, b, c, 0))
}

/// A random point on the unit sphere's positive octant.
pub fn random_in_unit_sphere() -> (r: Vec4)
    ensures
        on_unit_sample_v(r@),
{
    let a = random_unit();
    let b = random_unit();
    let c = random_unit();
    let v = Vec4::from3(a, b, c);
    let n = v.norm();
    proof {
        assert(v@ == v4(a@, b@, c@, 0));
        assert(on_unit_sample_v(n@));
    }
    n
}

/// Whether `p` can come from the disk sampler: the normalisation of a vector
/// drawn from the unit square.
pub open spec fn on_disk_sample_v(p: V4) -> bool {
    exists|a: int, b: int| 0 <= a < FX_ONE && 0 <= b < FX_ONE && p == v4_norm(v4(a, b, 0, 0))
}

/// A random point on the unit circle's positive quadrant.
pub fn random_in_unit_disk() -> (r: Vec4)
    ensures
        on_disk_sample_v(r@),
{
    let a = random_unit();
    let b = random_unit();
    let v = Vec4::from3(a, b, Fx::zero());
    let n = v.norm();
    proof {
        assert(v@ == v4(a@, b@, 0, 0));
        assert(on_disk_sample_v(n@));
    }
    n
}

/// The pair `(a, b)` scaled by the reciprocal of its length.
pub open spec fn unit_pair_v(a: int, b: int) -> (int, int) {
    let l = fx_sqrt_v(fx_add_v(fx_mul_v(a, a), fx_mul_v(b, b)));
    (fx_div_v(a, l), fx_div_v(b, l))
}

/// A random direction in the plane, as a pair of scalars.
pub fn random_in_unit_disk_tuple() -> (r: (Fx, Fx))
    ensures
        exists|a: int, b: int|
            0 <= a < FX_ONE && 0 <= b < FX_ONE && (r.0@, r.1@) == unit_pair_v(a, b),
{
    let a = random_unit();
    let b = random_unit();
    let l = a.mul(a).add(b.mul(b)).sqrt();
    let r = (a.div(l), b.div(l));
    proof {
        assert((r.0@, r.1@) == unit_pair_v(a@, b@));
    }
    r
}

/// A random point of the closed unit disk, drawn by rejection from the
/// square `[-1, 1]^2` with the origin as a fallback.
pub fn random_in_unit_disk2() -> (r: (Fx, Fx))
    ensures
        fx_add_v(fx_mul_v(r.0@, r.0@), fx_mul_v(r.1@, r.1@)) <= FX_ONE,
        -FX_ONE <= r.0@ <= FX_ONE,
        -FX_ONE <= r.1@ <= FX_ONE,
{
    let mut i: u32 = 0;
    while i < 8
        invariant
            i <= 8,
        decreases 8 - i,
    {
        let x = random_signed_unit();
        let y = random_signed_unit();
        let q = x.mul(x).add(y.mul(y));
        if q.le(Fx::one()) {
            return (x, y);
        }
        i = i + 1;
    }
    (Fx::zero(), Fx::zero())
}

/// Whether `p` can come from the cube sampler: the spatial normalisation of
/// a nonzero vector drawn from the cube `[-1, 1]^3`.
pub open spec fn on_sphere_sample_v(p: V4) -> bool {
    exists|a: int, b: int, c: int|
        -FX_ONE <= a <= FX_ONE && -FX_ONE <= b <= FX_ONE && -FX_ONE <= c <= FX_ONE && p
            == v4_norm3(v4(a, b, c, 0))
}

/// A random point on the whole unit sphere, drawn by normalising a vector
/// from the cube `[-1, 1]^3` (an axis direction as fallback).
pub fn random_in_unit_sphere2() -> (r: Vec4)
    ensures
        on_sphere_sample_v(r@),
{
    let mut i: u32 = 0;
    while i < 8
        invariant
            i <= 8,
        decreases 8 - i,
    {
        let a = random_signed_unit();
        let b = random_signed_unit();
        let c = random_signed_unit();
        if a.raw != 0 || b.raw != 0 || c.raw != 0 {
            let v = Vec4::from3(a, b, c);
            let n = v.norm3();
            proof {
                assert(v@ == v4(a@, b@, c@, 0));
                assert(on_sphere_sample_v(n@));
            }
            return n;
        }
        i = i + 1;
    }
    let v = Vec4::from3(Fx::one(), Fx::zero(), Fx::zero());
    let n = v.norm3();
    proof {
        assert(v@ == v4(FX_ONE as int, 0, 0, 0));
        assert(on_sphere_sample_v(n@));
    }
    n
}

} // verus!
