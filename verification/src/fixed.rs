//! Fixed-point scalar arithmetic.
//!
//! Every quantity the tracer computes with is an `Fx`: a signed value with 16
//! fractional bits held in an `i64`. All operations are total: results are
//! clipped (saturated) into `[-FX_MAX_RAW, FX_MAX_RAW]`, and division by zero
//! yields zero, so no operation panics and every contract is an exact
//! equation over the mathematical model.

use vstd::arithmetic::div_mod::lemma_div_is_ordered;
use vstd::prelude::*;

verus! {

/// The raw representation of 1: one whole unit is `65536` raw steps.
pub const FX_ONE: i64 = 65536;

/// Magnitude bound for raw values: `2^39`, i.e. `2^23` whole units.
pub const FX_MAX_RAW: i64 = 549755813888;

/// Absolute value over the unbounded integers.
pub open spec fn int_abs(a: int) -> int {
    if a >= 0 {
        a
    } else {
        -a
    }
}

/// Division truncated toward zero (the rounding the scalar ops use).
pub open spec fn tdiv(a: int, b: int) -> int {
    if (a >= 0) == (b >= 0) {
        int_abs(a) / int_abs(b)
    } else {
        -(int_abs(a) / int_abs(b))
    }
}

/// Saturation of a raw value into the representable range.
pub open spec fn fx_clip(a: int) -> int {
    if a > FX_MAX_RAW {
        FX_MAX_RAW as int
    } else if a < -FX_MAX_RAW {
        -FX_MAX_RAW as int
    } else {
        a
    }
}

pub open spec fn fx_add_v(a: int, b: int) -> int {
    fx_clip(a + b)
}

pub open spec fn fx_sub_v(a: int, b: int) -> int {
    fx_clip(a - b)
}

pub open spec fn fx_neg_v(a: int) -> int {
    fx_clip(-a)
}

pub open spec fn fx_abs_v(a: int) -> int {
    fx_clip(int_abs(a))
}

pub open spec fn fx_mul_v(a: int, b: int) -> int {
    fx_clip(tdiv(a * b, 65536))
}

pub open spec fn fx_div_v(a: int, b: int) -> int {
    if b == 0 {
        0
    } else {
        fx_clip(tdiv(a * 65536, b))
    }
}

pub open spec fn fx_min_v(a: int, b: int) -> int {
    if a <= b {
        a
    } else {
        b
    }
}

pub open spec fn fx_max_v(a: int, b: int) -> int {
    if a >= b {
        a
    } else {
        b
    }
}

pub open spec fn fx_clamp_v(a: int, lo: int, hi: int) -> int {
    fx_min_v(fx_max_v(a, lo), hi)
}

pub open spec fn fx_sign_v(a: int) -> int {
    if a > 0 {
        FX_ONE as int
    } else if a < 0 {
        -FX_ONE as int
    } else {
        0
    }
}

/// The integer square root, characterised by
/// `isqrt_v(n)^2 <= n < (isqrt_v(n)+1)^2` (see `lemma_isqrt_bounds`).
pub open spec fn isqrt_v(n: nat) -> nat
    decreases n,
{
    if n == 0 {
        0
    } else {
        let r = isqrt_v((n - 1) as nat);
        if (r + 1) * (r + 1) <= n {
            r + 1
        } else {
            r
        }
    }
}

/// Square root of a scalar: `sqrt(a / 65536) * 65536 == isqrt(a * 65536)`.
/// Non-positive inputs map to zero.
pub open spec fn fx_sqrt_v(a: int) -> int {
    if a <= 0 {
        0
    } else {
        fx_clip(isqrt_v((a * 65536) as nat) as int)
    }
}

pub proof fn lemma_isqrt_bounds(n: nat)
    ensures
        isqrt_v(n) * isqrt_v(n) <= n,
        n < (isqrt_v(n) + 1) * (isqrt_v(n) + 1),
    decreases n,
{
    if n == 0 {
        assert(isqrt_v(0) == 0);
        assert(isqrt_v(n) * isqrt_v(n) <= n);
        assert(n < (isqrt_v(n) + 1) * (isqrt_v(n) + 1)) by (nonlinear_arith)
            requires
                n == 0,
                isqrt_v(n) == 0;
    } else {
        lemma_isqrt_bounds((n - 1) as nat);
        let r = isqrt_v((n - 1) as nat);
        if (r + 1) * (r + 1) <= n {
            assert(isqrt_v(n) == r + 1);
            assert(n <= (r + 1) * (r + 1));
            assert(n < (r + 2) * (r + 2)) by (nonlinear_arith)
                requires
                    n == (r + 1) * (r + 1),
                    r >= 0;
        } else {
            assert(isqrt_v(n) == r);
        }
    }
}

pub proof fn lemma_isqrt_is(n: nat, r: nat)
    requires
        r * r <= n,
        n < (r + 1) * (r + 1),
    ensures
        isqrt_v(n) == r,
{
    let s = isqrt_v(n);
    lemma_isqrt_bounds(n);
    if r < s {
        assert((r + 1) * (r + 1) <= s * s) by (nonlinear_arith)
            requires
                r + 1 <= s;
        assert(false);
    }
    if s < r {
        assert((s + 1) * (s + 1) <= r * r) by (nonlinear_arith)
            requires
                s + 1 <= r;
        assert(false);
    }
}

pub proof fn lemma_isqrt_mono(a: nat, b: nat)
    requires
        a <= b,
    ensures
        isqrt_v(a) <= isqrt_v(b),
{
    lemma_isqrt_bounds(a);
    lemma_isqrt_bounds(b);
    if isqrt_v(b) < isqrt_v(a) {
        assert((isqrt_v(b) + 1) * (isqrt_v(b) + 1) <= isqrt_v(a) * isqrt_v(a)) by (nonlinear_arith)
            requires
                isqrt_v(b) + 1 <= isqrt_v(a);
        assert(false);
    }
}

/// Truncated division is monotone in the dividend (positive divisor).
pub proof fn lemma_tdiv_mono(a1: int, a2: int, b: int)
    requires
        a1 <= a2,
        b > 0,
    ensures
        tdiv(a1, b) <= tdiv(a2, b),
{
    if a1 >= 0 {
        lemma_div_is_ordered(a1, a2, b);
    } else if a2 < 0 {
        lemma_div_is_ordered(-a2, -a1, b);
    } else {
        assert(tdiv(a1, b) == -((-a1) / b));
        assert((-a1) / b >= 0) by {
            vstd::arithmetic::div_mod::lemma_div_pos_is_pos(-a1, b);
        }
        assert(a2 / b >= 0) by {
            vstd::arithmetic::div_mod::lemma_div_pos_is_pos(a2, b);
        }
    }
}

/// The scaled product of a value with itself is never negative.
pub proof fn lemma_fx_mul_sq_nonneg(a: int)
    ensures
        fx_mul_v(a, a) >= 0,
{
    assert(a * a >= 0) by (nonlinear_arith);
    if a * a > 0 {
        vstd::arithmetic::div_mod::lemma_div_pos_is_pos(a * a, 65536);
    }
}

/// The scaled product of two non-negative values is non-negative.
pub proof fn lemma_fx_mul_nonneg(a: int, b: int)
    requires
        a >= 0,
        b >= 0,
    ensures
        fx_mul_v(a, b) >= 0,
{
    assert(a * b >= 0) by (nonlinear_arith)
        requires
            a >= 0,
            b >= 0;
    if a * b > 0 {
        vstd::arithmetic::div_mod::lemma_div_pos_is_pos(a * b, 65536);
    }
}

/// Dividing a non-negative value by a positive one stays non-negative.
pub proof fn lemma_fx_div_nonneg(a: int, b: int)
    requires
        a >= 0,
        b > 0,
    ensures
        fx_div_v(a, b) >= 0,
{
    if a * 65536 > 0 {
        vstd::arithmetic::div_mod::lemma_div_pos_is_pos(a * 65536, b);
    }
}

/// Dividing a non-positive value by a positive one stays non-positive.
pub proof fn lemma_fx_div_nonpos(a: int, b: int)
    requires
        a <= 0,
        b > 0,
    ensures
        fx_div_v(a, b) <= 0,
{
    if a < 0 {
        vstd::arithmetic::div_mod::lemma_div_pos_is_pos(-(a * 65536), b);
    }
}

/// Division is monotone in the numerator (positive divisor).
pub proof fn lemma_fx_div_mono_num(n1: int, n2: int, d: int)
    requires
        n1 <= n2,
        d > 0,
    ensures
        fx_div_v(n1, d) <= fx_div_v(n2, d),
{
    lemma_tdiv_mono(n1 * 65536, n2 * 65536, d);
}

/// The scalar square root is never negative.
pub proof fn lemma_fx_sqrt_nonneg(a: int)
    ensures
        fx_sqrt_v(a) >= 0,
{
}

/// Cross-denominator division monotonicity: if the fractions compare by
/// cross-multiplication, so do the truncated quotients.
pub proof fn lemma_div_cross_mono(x1: int, d1: int, x2: int, d2: int)
    requires
        0 <= x1,
        0 <= x2,
        0 < d1,
        0 < d2,
        x1 * d2 <= x2 * d1,
    ensures
        x1 / d1 <= x2 / d2,
{
    let q1 = x1 / d1;
    vstd::arithmetic::div_mod::lemma_fundamental_div_mod(x1, d1);
    assert(q1 * d1 <= x1) by (nonlinear_arith)
        requires
            x1 == d1 * q1 + x1 % d1,
            x1 % d1 >= 0;
    assert(q1 * d2 <= x2) by (nonlinear_arith)
        requires
            q1 * d1 <= x1,
            x1 * d2 <= x2 * d1,
            0 < d1,
            0 < d2,
            0 <= x1;
    let q2 = x2 / d2;
    vstd::arithmetic::div_mod::lemma_fundamental_div_mod(x2, d2);
    assert(q1 <= q2) by (nonlinear_arith)
        requires
            q1 * d2 <= x2,
            x2 == d2 * q2 + x2 % d2,
            0 <= x2 % d2 < d2,
            0 < d2;
}

/// The same cross-multiplication criterion for the scalar division.
pub proof fn lemma_fx_div_cross_mono(x1: int, d1: int, x2: int, d2: int)
    requires
        0 <= x1,
        0 <= x2,
        0 < d1,
        0 < d2,
        x1 * d2 <= x2 * d1,
    ensures
        fx_div_v(x1, d1) <= fx_div_v(x2, d2),
{
    assert((x1 * 65536) * d2 <= (x2 * 65536) * d1) by (nonlinear_arith)
        requires
            x1 * d2 <= x2 * d1;
    assert(x1 * 65536 >= 0) by (nonlinear_arith)
        requires
            x1 >= 0;
    assert(x2 * 65536 >= 0) by (nonlinear_arith)
        requires
            x2 >= 0;
    lemma_div_cross_mono(x1 * 65536, d1, x2 * 65536, d2);
}

/// The scalar square root is monotone.
pub proof fn lemma_fx_sqrt_mono(a: int, b: int)
    requires
        a <= b,
    ensures
        fx_sqrt_v(a) <= fx_sqrt_v(b),
{
    if 0 < a {
        assert(a * 65536 <= b * 65536);
        lemma_isqrt_mono((a * 65536) as nat, (b * 65536) as nat);
    } else if 0 < b {
        lemma_isqrt_bounds((b * 65536) as nat);
    }
}

/// Multiplication is monotone in its first factor (non-negative second).
pub proof fn lemma_fx_mul_mono(a1: int, a2: int, b: int)
    requires
        a1 <= a2,
        0 <= b,
    ensures
        fx_mul_v(a1, b) <= fx_mul_v(a2, b),
{
    assert(a1 * b <= a2 * b) by (nonlinear_arith)
        requires
            a1 <= a2,
            0 <= b;
    lemma_tdiv_mono(a1 * b, a2 * b, 65536);
}

/// A scalar value with 16 fractional bits. `v@` is the raw integer, so the
/// real value represented is `v@ / 65536`.
#[derive(Clone, Copy, PartialEq, Eq, Structural, Debug)]
pub struct Fx {
    pub raw: i64,
}

impl View for Fx {
    type V = int;

    open spec fn view(&self) -> int {
        self.raw as int
    }
}

/// Saturate a wide intermediate into the raw range.
pub fn clip_wide(x: i128) -> (r: i64)
    ensures
        r as int == fx_clip(x as int),
{
    if x > FX_MAX_RAW as i128 {
        FX_MAX_RAW
    } else if x < -(FX_MAX_RAW as i128) {
        -FX_MAX_RAW
    } else {
        x as i64
    }
}

/// Magnitude of a raw value, total even at `i64::MIN`.
fn abs64(x: i64) -> (r: u64)
    ensures
        r as int == int_abs(x as int),
{
    if x >= 0 {
        x as u64
    } else {
        (-(x as i128)) as u64
    }
}

/// Scale a wide product back down, truncating toward zero.
pub(crate) fn scale_down_trunc(p: i128) -> (q: i128)
    requires
        -0x4000_0000_0000_0000_0000_0000_0000_0000 <= p
            <= 0x4000_0000_0000_0000_0000_0000_0000_0000,
    ensures
        q as int == tdiv(p as int, 65536),
{
    if p >= 0 {
        let d: u128 = (p as u128) / 65536;
        d as i128
    } else {
        let d: u128 = ((-p) as u128) / 65536;
        -(d as i128)
    }
}

impl Fx {
    pub fn new(raw: i64) -> (r: Fx)
        ensures
            r@ == raw as int,
    {
        Fx { raw }
    }

    pub fn zero() -> (r: Fx)
        ensures
            r@ == 0,
    {
        Fx { raw: 0 }
    }

    pub fn one() -> (r: Fx)
        ensures
            r@ == FX_ONE as int,
    {
        Fx { raw: FX_ONE }
    }

    /// The value `v` as a scalar (saturated for very large `v`).
    pub fn from_int(v: i64) -> (r: Fx)
        ensures
            r@ == fx_clip(v * 65536),
    {
        Fx { raw: clip_wide((v as i128) * 65536) }
    }

    pub fn add(self, o: Fx) -> (r: Fx)
        ensures
            r@ == fx_add_v(self@, o@),
    {
        Fx { raw: clip_wide((self.raw as i128) + (o.raw as i128)) }
    }

    pub fn sub(self, o: Fx) -> (r: Fx)
        ensures
            r@ == fx_sub_v(self@, o@),
    {
        Fx { raw: clip_wide((self.raw as i128) - (o.raw as i128)) }
    }

    pub fn neg(self) -> (r: Fx)
        ensures
            r@ == fx_neg_v(self@),
    {
        Fx { raw: clip_wide(-(self.raw as i128)) }
    }

    pub fn abs(self) -> (r: Fx)
        ensures
            r@ == fx_abs_v(self@),
    {
        if self.raw >= 0 {
            Fx { raw: clip_wide(self.raw as i128) }
        } else {
            Fx { raw: clip_wide(-(self.raw as i128)) }
        }
    }

    pub fn mul(self, o: Fx) -> (r: Fx)
        ensures
            r@ == fx_mul_v(self@, o@),
    {
        proof {
            assert(-0x4000_0000_0000_0000_0000_0000_0000_0000 <= (self.raw as int) * (o.raw as int)
                <= 0x4000_0000_0000_0000_0000_0000_0000_0000) by (nonlinear_arith)
                requires
                    -0x8000_0000_0000_0000 <= self.raw as int <= 0x7FFF_FFFF_FFFF_FFFF,
                    -0x8000_0000_0000_0000 <= o.raw as int <= 0x7FFF_FFFF_FFFF_FFFF;
        }
        let p: i128 = (self.raw as i128) * (o.raw as i128);
        Fx { raw: clip_wide(scale_down_trunc(p)) }
    }

    pub fn div(self, o: Fx) -> (r: Fx)
        ensures
            r@ == fx_div_v(self@, o@),
    {
        if o.raw == 0 {
            return Fx { raw: 0 };
        }
        let neg = (self.raw < 0) != (o.raw < 0);
        let ma: u128 = (abs64(self.raw) as u128) * 65536;
        let mb: u128 = abs64(o.raw) as u128;
        let d: u128 = ma / mb;
        let m: i64 = if d > FX_MAX_RAW as u128 {
            FX_MAX_RAW
        } else {
            d as i64
        };
        proof {
            let a = self.raw as int;
            let b = o.raw as int;
            assert(int_abs(a * 65536) == int_abs(a) * 65536);
            assert((a * 65536 >= 0) == (a >= 0));
            assert(d as int == int_abs(a) * 65536 / int_abs(b));
        }
        if neg {
            Fx { raw: -m }
        } else {
            Fx { raw: m }
        }
    }

    pub fn sqrt(self) -> (r: Fx)
        ensures
            r@ == fx_sqrt_v(self@),
    {
        if self.raw <= 0 {
            return Fx { raw: 0 };
        }
        let n: u128 = (self.raw as u128) * 65536;
        let s: u64 = isqrt_u128(n);
        proof {
            lemma_isqrt_bounds(n as nat);
            assert((s as int) < 0x1_0000_0000_0000) by (nonlinear_arith)
                requires
                    (s as nat) * (s as nat) <= n as nat,
                    (n as nat) < 0x1_0000_0000_0000_0000_0000_0000;
        }
        let m: i64 = if s > FX_MAX_RAW as u64 {
            FX_MAX_RAW
        } else {
            s as i64
        };
        Fx { raw: m }
    }

    pub fn min(self, o: Fx) -> (r: Fx)
        ensures
            r@ == fx_min_v(self@, o@),
    {
        if self.raw <= o.raw {
            self
        } else {
            o
        }
    }

    pub fn max(self, o: Fx) -> (r: Fx)
        ensures
            r@ == fx_max_v(self@, o@),
    {
        if self.raw >= o.raw {
            self
        } else {
            o
        }
    }

    pub fn clamp(self, lo: Fx, hi: Fx) -> (r: Fx)
        ensures
            r@ == fx_clamp_v(self@, lo@, hi@),
    {
        self.max(lo).min(hi)
    }

    pub fn sign(self) -> (r: Fx)
        ensures
            r@ == fx_sign_v(self@),
    {
        if self.raw > 0 {
            Fx { raw: FX_ONE }
        } else if self.raw < 0 {
            Fx { raw: -FX_ONE }
        } else {
            Fx { raw: 0 }
        }
    }

    pub fn lt(self, o: Fx) -> (r: bool)
        ensures
            r == (self@ < o@),
    {
        self.raw < o.raw
    }

    pub fn le(self, o: Fx) -> (r: bool)
        ensures
            r == (self@ <= o@),
    {
        self.raw <= o.raw
    }

    /// The whole part of the value, truncated toward zero.
    pub fn trunc(self) -> (r: i64)
        ensures
            r as int == tdiv(self@, 65536),
    {
        let m: u64 = abs64(self.raw) / 65536;
        if self.raw >= 0 {
            m as i64
        } else {
            -(m as i64)
        }
    }
}

/// Integer square root by bisection.
pub fn isqrt_u128(n: u128) -> (r: u64)
    requires
        n < 0x1_0000_0000_0000_0000_0000_0000,
    ensures
        r as nat == isqrt_v(n as nat),
{
    let mut lo: u64 = 0;
    let mut hi: u64 = 0x1_0000_0000_0000;
    proof {
        assert((hi as int) * (hi as int) == 0x1_0000_0000_0000_0000_0000_0000) by (nonlinear_arith)
            requires
                hi as int == 0x1_0000_0000_0000;
    }
    while hi - lo > 1
        invariant
            lo < hi,
            hi <= 0x1_0000_0000_0000,
            (lo as nat) * (lo as nat) <= n as nat,
            (n as nat) < (hi as nat) * (hi as nat),
        decreases hi - lo,
    {
        let mid = lo + (hi - lo) / 2;
        proof {
            assert((mid as int) * (mid as int) <= 0x1_0000_0000_0000_0000_0000_0000)
                by (nonlinear_arith)
                requires
                    mid as int <= 0x1_0000_0000_0000;
        }
        let sq: u128 = (mid as u128) * (mid as u128);
        if sq <= n {
            lo = mid;
        } else {
            hi = mid;
        }
    }
    proof {
        lemma_isqrt_is(n as nat, lo as nat);
    }
    lo
}

} // verus!
