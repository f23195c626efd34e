//! Cameras: mapping pixel coordinates (plus jitter) to world-space rays
//! through a precomputed view-plane basis.

use crate::fixed::{fx_add_v, fx_clip, fx_div_v, fx_mul_v, Fx};
use crate::random::{on_disk_sample_v, random_in_unit_disk};
use crate::ray::{Ray, RayV};
use crate::vec::{v4_add, v4_cross3, v4_norm, v4_scale, v4_sub, Vec4, V4};
use vstd::prelude::*;

verus! {

/// Whether one ray serves all colour channels, or each channel gets its own.
#[derive(Clone, Copy, PartialEq, Eq, Structural, Debug)]
pub enum Mode {
    Combined,
    Separate,
}

/// The colour channel a ray is generated for.
#[derive(Clone, Copy, PartialEq, Eq, Structural, Debug)]
pub enum Channel {
    All,
    R,
    G,
    B,
}

/// The offset a channel adds to the view selector of a multi-view camera.
pub open spec fn channel_index_v(c: Channel) -> int {
    match c {
        Channel::All => 0,
        Channel::R => 1,
        Channel::G => 2,
        Channel::B => 3,
    }
}

pub fn channel_index(c: Channel) -> (i: u32)
    ensures
        i as int == channel_index_v(c),
{
    match c {
        Channel::All => 0,
        Channel::R => 1,
        Channel::G => 2,
        Channel::B => 3,
    }
}

/// A camera maps floating pixel coordinates in `[0, width] x [0, height]`
/// to world-space rays; `ray_v` is each implementation's exact model.
pub trait Camera {
    spec fn samples_v(&self) -> u32;

    spec fn width_v(&self) -> u32;

    spec fn height_v(&self) -> u32;

    spec fn mode_v(&self) -> Mode;

    spec fn ray_v(&self, x: int, y: int, channel: Channel) -> RayV;

    fn sample_count(&self) -> (r: u32)
        ensures
            r == self.samples_v(),
    ;

    fn width(&self) -> (r: u32)
        ensures
            r == self.width_v(),
    ;

    fn height(&self) -> (r: u32)
        ensures
            r == self.height_v(),
    ;

    fn mode(&self) -> (m: Mode)
        ensures
            m == self.mode_v(),
    ;

    fn get_ray(&self, x: Fx, y: Fx, channel: Channel) -> (r: Ray)
        ensures
            r@ == self.ray_v(x@, y@, channel),
    ;
}

/// The view direction: from the target towards the camera, unit length.
pub open spec fn cam_w_v(origin: V4, target: V4) -> V4 {
    v4_norm(v4_sub(origin, target))
}

/// The right-hand basis vector of the view plane.
pub open spec fn cam_u_v(origin: V4, target: V4, up: V4) -> V4 {
    v4_norm(v4_cross3(up, cam_w_v(origin, target)))
}

/// The up basis vector of the view plane.
pub open spec fn cam_v_v(origin: V4, target: V4, up: V4) -> V4 {
    v4_cross3(cam_u_v(origin, target, up), cam_w_v(origin, target))
}

#[derive(Clone, Copy, PartialEq, Eq, Structural, Debug)]
pub struct PerspectiveCamera {
    pub pos: Vec4,
    pub w: Vec4,
    pub u: Vec4,
    pub v: Vec4,
    pub lense_radius: Fx,
    pub lower_left_corner: Vec4,
    pub horizontal: Vec4,
    pub vertical: Vec4,
    pub width: u32,
    pub height: u32,
    pub samples: u32,
}

impl PerspectiveCamera {
    /// Build the view-plane basis. `half_height` is the vertical half-extent
    /// of the view plane at unit distance (the tangent of half the vertical
    /// field of view); the horizontal half-extent follows from the aspect
    /// ratio.
    pub fn new(
        origin: Vec4,
        target: Vec4,
        up: Vec4,
        half_height: Fx,
        width: u32,
        height: u32,
        lense_diameter: Fx,
        far: Fx,
        samples: u32,
    ) -> (cam: PerspectiveCamera)
        ensures
            cam.pos == origin,
            cam.w@ == cam_w_v(origin@, target@),
            cam.u@ == cam_u_v(origin@, target@, up@),
            cam.v@ == cam_v_v(origin@, target@, up@),
            cam.lense_radius@ == fx_div_v(lense_diameter@, 131072),
            ({
                let uu = cam_u_v(origin@, target@, up@);
                let vv = cam_v_v(origin@, target@, up@);
                let ww = cam_w_v(origin@, target@);
                let aspect = fx_div_v(
                    fx_clip((width as int) * 65536),
                    fx_clip((height as int) * 65536),
                );
                let hw = fx_mul_v(fx_mul_v(aspect, half_height@), far@);
                let hh = fx_mul_v(half_height@, far@);
                &&& cam.lower_left_corner@ == v4_sub(
                    v4_sub(v4_sub(origin@, v4_scale(hw, uu)), v4_scale(hh, vv)),
                    v4_scale(far@, ww),
                )
                &&& cam.horizontal@ == v4_scale(fx_add_v(hw, hw), uu)
                &&& cam.vertical@ == v4_scale(fx_add_v(hh, hh), vv)
            }),
            cam.width == width,
            cam.height == height,
            cam.samples == samples,
    {
        let ww = origin.sub(target).norm();
        let uu = up.cross3(&ww).norm();
        let vv = uu.cross3(&ww);

        let aspect = Fx::from_int(width as i64).div(Fx::from_int(height as i64));
        let hw = aspect.mul(half_height).mul(far);
        let hh = half_height.mul(far);

        PerspectiveCamera {
            pos: origin,
            w: ww,
            u: uu,
            v: vv,
            lense_radius: lense_diameter.div(Fx::from_int(2)),
            lower_left_corner: origin.sub(uu.scale(hw)).sub(vv.scale(hh)).sub(ww.scale(far)),
            horizontal: uu.scale(hw.add(hw)),
            vertical: vv.scale(hh.add(hh)),
            width,
            height,
            samples,
        }
    }

    /// The ray through view-plane coordinates `(s, t)` in `[0, 1]^2`, with a
    /// random lens offset for depth of field.
    pub fn get_random_ray(&self, s: Fx, t: Fx) -> (r: Ray)
        ensures
            exists|p: V4|
                #[trigger] on_disk_sample_v(p) && r@ == (RayV {
                    origin: v4_add(self.pos@, v4_scale(self.lense_radius@, p)),
                    direction: v4_sub(
                        v4_sub(
                            v4_add(
                                v4_add(self.lower_left_corner@, v4_scale(s@, self.horizontal@)),
                                v4_scale(t@, self.vertical@),
                            ),
                            self.pos@,
                        ),
                        v4_scale(self.lense_radius@, p),
                    ),
                }),
    {
        let d = random_in_unit_disk();
        let offset = d.scale(self.lense_radius);
        let r = Ray {
            origin: self.pos.add(offset),
            direction: self.lower_left_corner.add(self.horizontal.scale(s)).add(
                self.vertical.scale(t),
            ).sub(self.pos).sub(offset),
        };
        proof {
            assert(on_disk_sample_v(d@) && r@ == (RayV {
                origin: v4_add(self.pos@, v4_scale(self.lense_radius@, d@)),
                direction: v4_sub(
                    v4_sub(
                        v4_add(
                            v4_add(self.lower_left_corner@, v4_scale(s@, self.horizontal@)),
                            v4_scale(t@, self.vertical@),
                        ),
                        self.pos@,
                    ),
                    v4_scale(self.lense_radius@, d@),
                ),
            }));
        }
        r
    }
}

impl Camera for PerspectiveCamera {
    open spec fn samples_v(&self) -> u32 {
        self.samples
    }

    open spec fn width_v(&self) -> u32 {
        self.width
    }

    open spec fn height_v(&self) -> u32 {
        self.height
    }

    open spec fn mode_v(&self) -> Mode {
        Mode::Combined
    }

    /// Pixel coordinates scaled into `[0, 1]^2` select a point of the view
    /// plane; the ray leaves the camera position towards it.
    open spec fn ray_v(&self, x: int, y: int, channel: Channel) -> RayV {
        let s = fx_div_v(x, fx_clip((self.width as int) * 65536));
        let t = fx_div_v(y, fx_clip((self.height as int) * 65536));
        RayV {
            origin: self.pos@,
            direction: v4_sub(
                v4_add(
                    v4_add(self.lower_left_corner@, v4_scale(s, self.horizontal@)),
                    v4_scale(t, self.vertical@),
                ),
                self.pos@,
            ),
        }
    }

    fn sample_count(&self) -> (r: u32) {
        self.samples
    }

    fn width(&self) -> (r: u32) {
        self.width
    }

    fn height(&self) -> (r: u32) {
        self.height
    }

    fn mode(&self) -> (m: Mode) {
        Mode::Combined
    }

    fn get_ray(&self, x: Fx, y: Fx, channel: Channel) -> (r: Ray) {
        let s = x.div(Fx::from_int(self.width as i64));
        let t = y.div(Fx::from_int(self.height as i64));
        Ray {
            origin: self.pos,
            direction: self.lower_left_corner.add(self.horizontal.scale(s)).add(
                self.vertical.scale(t),
            ).sub(self.pos),
        }
    }
}

} // verus!
