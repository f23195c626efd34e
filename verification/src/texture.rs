//! Textures: a constant colour, or a decoded bitmap sampled by surface
//! coordinates.
//!
//! Bitmap decoding (file formats, gamma and exponent-biased colour spaces)
//! happens outside the core; a `DynamicTexture` holds the already-decoded
//! linear pixels, and sampling — the coordinate-to-pixel lookup — is
//! verified here.

use crate::fixed::{scale_down_trunc, tdiv, Fx};
use crate::hit::HitInfo;
use crate::vec::{v4_zero, Vec4, V4};
use vstd::prelude::*;

verus! {

/// How a bitmap's raw channel values were encoded on disk. The tag travels
/// with the texture so consumers know which decoding produced the pixels.
#[allow(non_camel_case_types)]
#[derive(Clone, Copy, PartialEq, Eq, Structural, Debug)]
pub enum DynamicTextureType {
    Linear,
    sRGB,
    RGBe,
}

/// A texture's colour at the given surface coordinates.
pub trait Sample {
    spec fn sample_v(&self, u: int, v: int) -> V4;

    fn sample(&self, hit: &HitInfo) -> (c: Vec4)
        ensures
            c@ == self.sample_v(hit@.u, hit@.v),
    ;
}

#[derive(Clone, Copy, PartialEq, Eq, Structural, Debug)]
pub struct ConstantTexture {
    pub color: Vec4,
}

/// A decoded bitmap: `width * height` linear pixels in row-major order.
#[derive(Clone, Debug)]
pub struct DynamicTexture {
    pub pixels: Vec<Vec4>,
    pub width: u32,
    pub height: u32,
    pub load_type: DynamicTextureType,
}

#[allow(inconsistent_fields)]
#[derive(Clone, Debug)]
pub enum Texture {
    ConstantTexture { tex: ConstantTexture },
    DynamicTexture { tex: DynamicTexture },
}

/// The pixel column (or row) hit by coordinate `c` in `[0, 1]`: the scaled
/// coordinate truncated and clamped into `[0, dim - 1]`.
pub open spec fn tex_index_v(dim: u32, c: int) -> int {
    if dim == 0 {
        0
    } else {
        let i = tdiv(dim * c, 65536);
        if i < 0 {
            0
        } else if i > dim - 1 {
            dim - 1
        } else {
            i
        }
    }
}

fn tex_index(dim: u32, c: Fx) -> (i: u32)
    ensures
        i as int == tex_index_v(dim, c@),
{
    if dim == 0 {
        return 0;
    }
    proof {
        assert(-0x4000_0000_0000_0000_0000_0000_0000_0000 <= (dim as int) * (c.raw as int)
            <= 0x4000_0000_0000_0000_0000_0000_0000_0000) by (nonlinear_arith)
            requires
                0 <= dim as int <= 0xFFFF_FFFF,
                -0x8000_0000_0000_0000 <= c.raw as int <= 0x7FFF_FFFF_FFFF_FFFF;
    }
    let q = scale_down_trunc((dim as i128) * (c.raw as i128));
    if q < 0 {
        0
    } else if q > (dim - 1) as i128 {
        dim - 1
    } else {
        q as u32
    }
}

impl ConstantTexture {
    pub fn new(color: &Vec4) -> (t: ConstantTexture)
        ensures
            t.color == *color,
    {
        ConstantTexture { color: *color }
    }

    /// A constant texture from three colour channels.
    pub fn from(r: Fx, g: Fx, b: Fx) -> (t: ConstantTexture)
        ensures
            t.color@ == (V4 { x: r@, y: g@, z: b@, w: 0 }),
    {
        ConstantTexture { color: Vec4::from3(r, g, b) }
    }

    pub fn texture(&self) -> (t: Texture)
        ensures
            t == (Texture::ConstantTexture { tex: *self }),
    {
        Texture::ConstantTexture { tex: *self }
    }
}

impl Sample for ConstantTexture {
    open spec fn sample_v(&self, u: int, v: int) -> V4 {
        self.color@
    }

    fn sample(&self, hit: &HitInfo) -> (c: Vec4) {
        self.color
    }
}

impl DynamicTexture {
    /// A bitmap texture over pixels already decoded to linear colour.
    pub fn new(pixels: Vec<Vec4>, width: u32, height: u32, load_type: DynamicTextureType) -> (t:
        DynamicTexture)
        ensures
            t.pixels == pixels,
            t.width == width,
            t.height == height,
            t.load_type == load_type,
    {
        DynamicTexture { pixels, width, height, load_type }
    }

    pub fn texture(self) -> (t: Texture)
        ensures
            t == (Texture::DynamicTexture { tex: self }),
    {
        Texture::DynamicTexture { tex: self }
    }
}

impl Sample for DynamicTexture {
    /// The pixel under `(u, v)`, or black where the bitmap's dimensions do
    /// not match its pixel count.
    open spec fn sample_v(&self, u: int, v: int) -> V4 {
        let ix = tex_index_v(self.width, u);
        let iy = tex_index_v(self.height, v);
        let idx = iy * self.width + ix;
        if idx < self.pixels@.len() {
            self.pixels@[idx]@
        } else {
            v4_zero()
        }
    }

    fn sample(&self, hit: &HitInfo) -> (c: Vec4) {
        let ix = tex_index(self.width, hit.u);
        let iy = tex_index(self.height, hit.v);
        proof {
            assert((iy as int) * (self.width as int) + (ix as int) < 0x1_0000_0000_0000_0000)
                by (nonlinear_arith)
                requires
                    0 <= iy as int <= 0xFFFF_FFFF,
                    0 <= ix as int <= 0xFFFF_FFFF,
                    0 <= self.width as int <= 0xFFFF_FFFF;
        }
        let idx: u64 = (iy as u64) * (self.width as u64) + (ix as u64);
        if idx < self.pixels.len() as u64 {
            self.pixels[idx as usize]
        } else {
            Vec4::zero()
        }
    }
}

impl Sample for Texture {
    open spec fn sample_v(&self, u: int, v: int) -> V4 {
        match self {
            Texture::ConstantTexture { tex } => tex.sample_v(u, v),
            Texture::DynamicTexture { tex } => tex.sample_v(u, v),
        }
    }

    fn sample(&self, hit: &HitInfo) -> (c: Vec4) {
        match self {
            Texture::ConstantTexture { tex } => tex.sample(hit),
            Texture::DynamicTexture { tex } => tex.sample(hit),
        }
    }
}

} // verus!
