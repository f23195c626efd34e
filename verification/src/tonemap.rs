//! Tonemapping: remapping unbounded radiance into a display range.
//!
//! All operators apply a square-root gamma curve (gamma 2) after their
//! compression. This is a deliberate limitation of the scalar model: an
//! arbitrary power `x^(1/g)` has no exact fixed-point form, and the square
//! root is the one gamma curve these scalars compute exactly, so the
//! operators carry no gamma parameter; a consumer that needs a different
//! display curve applies it to the clamped output. For the Reinhard
//! operator, monotonicity in the exposure is proved
//! (`lemma_reinhard_channel_mono`).

use crate::fixed::{
    fx_add_v, fx_div_v, fx_mul_v, fx_sqrt_v, lemma_fx_div_cross_mono, lemma_fx_mul_mono,
    lemma_fx_mul_nonneg, lemma_fx_sqrt_mono, Fx, FX_MAX_RAW, FX_ONE,
};
use crate::vec::{
    v4_add, v4_div, v4_mul, v4_scale, v4_splat, v4_sqrt3, v4_sub, Vec4, V4,
};
use vstd::prelude::*;

verus! {

/// A tonemap operator's exact model is `tonemap_v`.
pub trait Tonemap {
    spec fn tonemap_v(&self, c: V4) -> V4;

    fn tonemap(&self, color: &Vec4) -> (r: Vec4)
        ensures
            r@ == self.tonemap_v(color@),
    ;
}

//######################################################################
// LinearTonemap
//######################################################################

/// Gamma correction only: each colour channel through the square root.
#[derive(Clone, Copy, PartialEq, Eq, Structural, Debug)]
pub struct LinearTonemap {
}

impl LinearTonemap {
    pub fn new() -> (t: LinearTonemap)
        ensures
            t == (LinearTonemap {  }),
    {
        LinearTonemap {  }
    }

    pub fn operator(&self) -> (op: TonemapOperator)
        ensures
            op == (TonemapOperator::LinearTonemap { op: *self }),
    {
        TonemapOperator::LinearTonemap { op: *self }
    }
}

impl Tonemap for LinearTonemap {
    open spec fn tonemap_v(&self, c: V4) -> V4 {
        v4_sqrt3(c)
    }

    fn tonemap(&self, color: &Vec4) -> (r: Vec4) {
        color.sqrt3()
    }
}

//######################################################################
// Uncharted2Tonemap
//######################################################################

/// The filmic curve `((x(ax+cb)+de)/(x(ax+b)+df))-e/f`, normalised by the
/// white point and gamma-corrected.
#[derive(Clone, Copy, PartialEq, Eq, Structural, Debug)]
pub struct Uncharted2Tonemap {
    pub a: Fx,
    pub b: Fx,
    pub c: Fx,
    pub d: Fx,
    pub e: Fx,
    pub f: Fx,
    pub inv_white_scale: Vec4,
    pub exposure: Fx,
}

/// The filmic curve itself, componentwise over a colour.
pub open spec fn uncharted2_eval_v(a: int, b: int, c: int, d: int, e: int, f: int, x: V4) -> V4 {
    v4_sub(
        v4_div(
            v4_add(v4_mul(x, v4_add(v4_scale(a, x), v4_splat(fx_mul_v(c, b)))), v4_splat(
                fx_mul_v(d, e),
            )),
            v4_add(v4_mul(x, v4_add(v4_scale(a, x), v4_splat(b))), v4_splat(fx_mul_v(d, f))),
        ),
        v4_splat(fx_div_v(e, f)),
    )
}

impl Uncharted2Tonemap {
    pub fn eval(&self, color: Vec4) -> (r: Vec4)
        ensures
            r@ == uncharted2_eval_v(self.a@, self.b@, self.c@, self.d@, self.e@, self.f@, color@),
    {
        let num = color.mul(color.scale(self.a).add(Vec4::splat(self.c.mul(self.b)))).add(
            Vec4::splat(self.d.mul(self.e)),
        );
        let den = color.mul(color.scale(self.a).add(Vec4::splat(self.b))).add(
            Vec4::splat(self.d.mul(self.f)),
        );
        num.div(den).sub(Vec4::splat(self.e.div(self.f)))
    }

    /// The published curve constants, a white point of `11.2` and an
    /// exposure of `2`.
    pub fn new() -> (t: Uncharted2Tonemap)
        ensures
            t.a@ == 9830,
            t.b@ == 32768,
            t.c@ == 6554,
            t.d@ == 13107,
            t.e@ == 1311,
            t.f@ == 19661,
            t.exposure@ == 131072,
            t.inv_white_scale@ == v4_div(
                v4_splat(FX_ONE as int),
                uncharted2_eval_v(9830, 32768, 6554, 13107, 1311, 19661, v4_splat(734003)),
            ),
    {
        Uncharted2Tonemap::from(
            Fx::new(9830),
            Fx::new(32768),
            Fx::new(6554),
            Fx::new(13107),
            Fx::new(1311),
            Fx::new(19661),
            Fx::new(734003),
            Fx::new(131072),
        )
    }

    pub fn from(a: Fx, b: Fx, c: Fx, d: Fx, e: Fx, f: Fx, w: Fx, exposure: Fx) -> (t:
        Uncharted2Tonemap)
        ensures
            t.a == a,
            t.b == b,
            t.c == c,
            t.d == d,
            t.e == e,
            t.f == f,
            t.exposure == exposure,
            t.inv_white_scale@ == v4_div(
                v4_splat(FX_ONE as int),
                uncharted2_eval_v(a@, b@, c@, d@, e@, f@, v4_splat(w@)),
            ),
    {
        let mut tmap = Uncharted2Tonemap {
            a,
            b,
            c,
            d,
            e,
            f,
            inv_white_scale: Vec4::one(),
            exposure,
        };
        tmap.inv_white_scale = Vec4::one().div(tmap.eval(Vec4::splat(w)));
        tmap
    }

    pub fn operator(&self) -> (op: TonemapOperator)
        ensures
            op == (TonemapOperator::Uncharted2Tonemap { op: *self }),
    {
        TonemapOperator::Uncharted2Tonemap { op: *self }
    }
}

impl Tonemap for Uncharted2Tonemap {
    open spec fn tonemap_v(&self, c: V4) -> V4 {
        v4_sqrt3(
            v4_mul(
                uncharted2_eval_v(
                    self.a@,
                    self.b@,
                    self.c@,
                    self.d@,
                    self.e@,
                    self.f@,
                    v4_scale(self.exposure@, c),
                ),
                self.inv_white_scale@,
            ),
        )
    }

    fn tonemap(&self, color: &Vec4) -> (r: Vec4) {
        self.eval(color.scale(self.exposure)).mul(self.inv_white_scale).sqrt3()
    }
}

//######################################################################
// ReinhardTonemap
//######################################################################

/// The Reinhard operator `(e c) / (1 + e c)`, gamma-corrected.
#[derive(Clone, Copy, PartialEq, Eq, Structural, Debug)]
pub struct ReinhardTonemap {
    pub exposure: Fx,
}

/// One channel of the Reinhard operator before gamma.
pub open spec fn reinhard_channel_raw_v(e: int, c: int) -> int {
    let m = fx_mul_v(e, c);
    fx_div_v(m, fx_add_v(FX_ONE as int, m))
}

/// One channel of the Reinhard operator with the gamma curve.
pub open spec fn reinhard_channel_v(e: int, c: int) -> int {
    fx_sqrt_v(reinhard_channel_raw_v(e, c))
}

impl ReinhardTonemap {
    pub fn new(exposure: Fx) -> (t: ReinhardTonemap)
        ensures
            t.exposure == exposure,
    {
        ReinhardTonemap { exposure }
    }

    pub fn operator(&self) -> (op: TonemapOperator)
        ensures
            op == (TonemapOperator::ReinhardTonemap { op: *self }),
    {
        TonemapOperator::ReinhardTonemap { op: *self }
    }
}

impl Tonemap for ReinhardTonemap {
    open spec fn tonemap_v(&self, c: V4) -> V4 {
        let m = v4_scale(self.exposure@, c);
        v4_sqrt3(v4_div(m, v4_add(v4_splat(FX_ONE as int), m)))
    }

    fn tonemap(&self, color: &Vec4) -> (r: Vec4) {
        let m = color.scale(self.exposure);
        m.div(Vec4::splat(Fx::one()).add(m)).sqrt3()
    }
}

/// Raising the exposure never darkens a Reinhard-tonemapped channel: for a
/// fixed non-negative input channel, the operator is monotone in the
/// exposure, so the tonemapped luminance cannot decrease.
pub proof fn lemma_reinhard_channel_mono(e1: int, e2: int, c: int)
    requires
        0 <= e1 <= e2,
        0 <= c,
    ensures
        reinhard_channel_v(e1, c) <= reinhard_channel_v(e2, c),
{
    let m1 = fx_mul_v(e1, c);
    let m2 = fx_mul_v(e2, c);
    lemma_fx_mul_nonneg(e1, c);
    lemma_fx_mul_nonneg(e2, c);
    lemma_fx_mul_mono(e1, e2, c);
    let d1 = fx_add_v(FX_ONE as int, m1);
    let d2 = fx_add_v(FX_ONE as int, m2);
    assert(0 < d1 && 0 < d2);
    assert(m1 * d2 <= m2 * d1) by {
        if 65536 + m2 > FX_MAX_RAW {
            if 65536 + m1 > FX_MAX_RAW {
                assert(m1 * d2 <= m2 * d1) by (nonlinear_arith)
                    requires
                        m1 <= m2,
                        0 <= m1,
                        d1 == d2,
                        0 < d1;
            } else {
                assert(m1 * d2 <= m2 * d1) by (nonlinear_arith)
                    requires
                        d2 == FX_MAX_RAW as int,
                        d1 == 65536 + m1,
                        0 <= m1,
                        m1 <= FX_MAX_RAW - 65536,
                        m2 >= FX_MAX_RAW - 65536,
                        m1 <= m2;
            }
        } else {
            assert(m1 * (65536 + m2) <= m2 * (65536 + m1)) by (nonlinear_arith)
                requires
                    0 <= m1 <= m2;
        }
    }
    lemma_fx_div_cross_mono(m1, d1, m2, d2);
    lemma_fx_sqrt_mono(reinhard_channel_raw_v(e1, c), reinhard_channel_raw_v(e2, c));
}

//######################################################################
// TonemapOperator
//######################################################################

#[derive(Clone, Copy, PartialEq, Eq, Structural, Debug)]
pub enum TonemapOperator {
    LinearTonemap { op: LinearTonemap },
    Uncharted2Tonemap { op: Uncharted2Tonemap },
    ReinhardTonemap { op: ReinhardTonemap },
}

impl Tonemap for TonemapOperator {
    open spec fn tonemap_v(&self, c: V4) -> V4 {
        match self {
            TonemapOperator::LinearTonemap { op } => op.tonemap_v(c),
            TonemapOperator::Uncharted2Tonemap { op } => op.tonemap_v(c),
            TonemapOperator::ReinhardTonemap { op } => op.tonemap_v(c),
        }
    }

    fn tonemap(&self, color: &Vec4) -> (r: Vec4) {
        match self {
            TonemapOperator::LinearTonemap { op } => op.tonemap(color),
            TonemapOperator::Uncharted2Tonemap { op } => op.tonemap(color),
            TonemapOperator::ReinhardTonemap { op } => op.tonemap(color),
        }
    }
}

} // verus!
