//! A lenticular multi-view camera: a row of viewpoints sharing one target,
//! with the view for a pixel chosen by a sloped screen pattern and the
//! colour channel.

use crate::camera::{cam_u_v, cam_v_v, cam_w_v, channel_index, channel_index_v, Camera, Channel,
    Mode};
use crate::fixed::{fx_add_v, fx_clip, fx_div_v, fx_mul_v, tdiv, Fx};
use crate::ray::{Ray, RayV};
use crate::vec::{v4_add, v4_scale, v4_splat, v4_sub, v4_zero, Vec4, V4};
use vstd::prelude::*;

verus! {

/// The origin of view `k`: the base origin shifted to the row's left end,
/// then `k` steps to the right (all components stepped alike).
pub open spec fn as3d_origin_v(origin: V4, offset0: int, step: int, k: int) -> V4
    decreases k,
{
    if k <= 0 {
        v4_sub(origin, v4_splat(offset0))
    } else {
        v4_add(as3d_origin_v(origin, offset0, step, k - 1), v4_splat(step))
    }
}

/// The lower-left view-plane corner for a viewpoint.
pub open spec fn as3d_llc_v(o: V4, target: V4, up: V4, hwf: int, hhf: int, far: int) -> V4 {
    v4_sub(
        v4_sub(v4_sub(o, v4_scale(hwf, cam_u_v(o, target, up))), v4_scale(hhf, cam_v_v(o, target, up))),
        v4_scale(far, cam_w_v(o, target)),
    )
}

/// The horizontal view-plane span for a viewpoint.
pub open spec fn as3d_horizontal_v(o: V4, target: V4, up: V4, hwf: int) -> V4 {
    v4_scale(fx_add_v(hwf, hwf), cam_u_v(o, target, up))
}

/// The vertical view-plane span for a viewpoint.
pub open spec fn as3d_vertical_v(o: V4, target: V4, up: V4, hhf: int) -> V4 {
    v4_scale(fx_add_v(hhf, hhf), cam_v_v(o, target, up))
}

pub struct AS3DCamera {
    pub pos: Vec<Vec4>,
    pub lower_left_corner: Vec<Vec4>,
    pub horizontal: Vec<Vec4>,
    pub vertical: Vec<Vec4>,
    pub width: u32,
    pub height: u32,
    pub samples: u32,
    pub lenticular_slope: Fx,
}

/// The horizontal half-span scalar: aspect ratio times half height, times
/// the view-plane distance.
pub open spec fn as3d_hwf_v(half_height: int, width: u32, height: u32, far: int) -> int {
    fx_mul_v(
        fx_mul_v(
            fx_div_v(fx_clip((width as int) * 65536), fx_clip((height as int) * 65536)),
            half_height,
        ),
        far,
    )
}

/// The leftward shift that centres the row of viewpoints.
pub open spec fn as3d_offset0_v(view_count: u32, step: int) -> int {
    fx_mul_v(fx_mul_v(fx_clip((view_count - 1) * 65536), 32768), step)
}

impl AS3DCamera {
    /// Build `view_count` viewpoints spaced `step_width` apart, all aimed
    /// at the same target; `half_height` is the vertical half-extent of the
    /// view plane at unit distance, and the lenticular pattern's slope is
    /// `slope_y / slope_x`.
    pub fn new(
        origin: Vec4,
        target: Vec4,
        up: Vec4,
        half_height: Fx,
        width: u32,
        height: u32,
        far: Fx,
        samples: u32,
        step_width: Fx,
        view_count: u32,
        slope_y: Fx,
        slope_x: Fx,
    ) -> (cam: AS3DCamera)
        requires
            view_count >= 1,
        ensures
            cam.pos@.len() == view_count,
            cam.lower_left_corner@.len() == view_count,
            cam.horizontal@.len() == view_count,
            cam.vertical@.len() == view_count,
            cam.width == width,
            cam.height == height,
            cam.samples == samples,
            cam.lenticular_slope@ == fx_div_v(slope_y@, slope_x@),
            forall|k: int|
                0 <= k < view_count ==> #[trigger] cam.pos@[k]@ == as3d_origin_v(
                    origin@,
                    as3d_offset0_v(view_count, step_width@),
                    step_width@,
                    k,
                ),
            forall|k: int|
                0 <= k < view_count ==> {
                    let o = as3d_origin_v(
                        origin@,
                        as3d_offset0_v(view_count, step_width@),
                        step_width@,
                        k,
                    );
                    let hwf = as3d_hwf_v(half_height@, width, height, far@);
                    let hhf = fx_mul_v(half_height@, far@);
                    &&& #[trigger] cam.lower_left_corner@[k]@ == as3d_llc_v(
                        o,
                        target@,
                        up@,
                        hwf,
                        hhf,
                        far@,
                    )
                    &&& cam.horizontal@[k]@ == as3d_horizontal_v(o, target@, up@, hwf)
                    &&& cam.vertical@[k]@ == as3d_vertical_v(o, target@, up@, hhf)
                },
    {
        let aspect = Fx::from_int(width as i64).div(Fx::from_int(height as i64));
        let hwf = aspect.mul(half_height).mul(far);
        let hhf = half_height.mul(far);

        let mut origins: Vec<Vec4> = Vec::new();
        let mut llcs: Vec<Vec4> = Vec::new();
        let mut horizontals: Vec<Vec4> = Vec::new();
        let mut verticals: Vec<Vec4> = Vec::new();

        let offset0 = Fx::from_int((view_count - 1) as i64).mul(Fx::new(32768)).mul(step_width);
        let mut cur_origin = origin.sub(Vec4::splat(offset0));

        let mut k: u32 = 0;
        while k < view_count
            invariant
                k <= view_count,
                origins@.len() == k,
                llcs@.len() == k,
                horizontals@.len() == k,
                verticals@.len() == k,
                hwf@ == as3d_hwf_v(half_height@, width, height, far@),
                hhf@ == fx_mul_v(half_height@, far@),
                offset0@ == as3d_offset0_v(view_count, step_width@),
                cur_origin@ == as3d_origin_v(origin@, offset0@, step_width@, k as int),
                forall|j: int|
                    0 <= j < k ==> #[trigger] origins@[j]@ == as3d_origin_v(
                        origin@,
                        offset0@,
                        step_width@,
                        j,
                    ),
                forall|j: int|
                    0 <= j < k ==> {
                        let o = as3d_origin_v(origin@, offset0@, step_width@, j);
                        &&& #[trigger] llcs@[j]@ == as3d_llc_v(o, target@, up@, hwf@, hhf@, far@)
                        &&& horizontals@[j]@ == as3d_horizontal_v(o, target@, up@, hwf@)
                        &&& verticals@[j]@ == as3d_vertical_v(o, target@, up@, hhf@)
                    },
            decreases view_count - k,
        {
            origins.push(cur_origin);

            let ww = cur_origin.sub(target).norm();
            let uu = up.cross3(&ww).norm();
            let vv = uu.cross3(&ww);

            llcs.push(cur_origin.sub(uu.scale(hwf)).sub(vv.scale(hhf)).sub(ww.scale(far)));
            verticals.push(vv.scale(hhf.add(hhf)));
            horizontals.push(uu.scale(hwf.add(hwf)));

            cur_origin = cur_origin.add(Vec4::splat(step_width));
            k = k + 1;
        }

        AS3DCamera {
            pos: origins,
            lower_left_corner: llcs,
            horizontal: horizontals,
            vertical: verticals,
            width,
            height,
            samples,
            lenticular_slope: slope_y.div(slope_x),
        }
    }
}

/// The per-view tables all cover the same views.
pub open spec fn as3d_wf(cam: AS3DCamera) -> bool {
    &&& cam.lower_left_corner@.len() == cam.pos@.len()
    &&& cam.horizontal@.len() == cam.pos@.len()
    &&& cam.vertical@.len() == cam.pos@.len()
}

/// The view index for a pixel: the sloped screen pattern plus the channel
/// offset, truncated and wrapped over the number of views (negative
/// selectors land on view zero).
pub open spec fn as3d_view_v(cam: AS3DCamera, x: int, y: int, channel: Channel) -> int {
    let sel = fx_add_v(
        fx_add_v(
            fx_add_v(fx_mul_v(x, fx_clip(3int * 65536)), fx_mul_v(y, cam.lenticular_slope@)),
            fx_clip(4int * 65536),
        ),
        fx_clip(channel_index_v(channel) * 65536),
    );
    let t = tdiv(sel, 65536);
    if cam.pos@.len() == 0 {
        0
    } else if t < 0 {
        0
    } else {
        t % (cam.pos@.len() as int)
    }
}

impl Camera for AS3DCamera {
    open spec fn samples_v(&self) -> u32 {
        self.samples
    }

    open spec fn width_v(&self) -> u32 {
        self.width
    }

    open spec fn height_v(&self) -> u32 {
        self.height
    }

    open spec fn mode_v(&self) -> Mode {
        Mode::Separate
    }

    /// The selected view's plane, sampled like the single-view camera; a
    /// camera built with no views yields the degenerate zero ray.
    open spec fn ray_v(&self, x: int, y: int, channel: Channel) -> RayV {
        if self.pos@.len() == 0 || !as3d_wf(*self) {
            RayV { origin: v4_zero(), direction: v4_zero() }
        } else {
            let view = as3d_view_v(*self, x, y, channel);
            let s = fx_div_v(x, fx_clip((self.width as int) * 65536));
            let t = fx_div_v(y, fx_clip((self.height as int) * 65536));
            RayV {
                origin: self.pos@[view]@,
                direction: v4_sub(
                    v4_add(
                        v4_add(
                            self.lower_left_corner@[view]@,
                            v4_scale(s, self.horizontal@[view]@),
                        ),
                        v4_scale(t, self.vertical@[view]@),
                    ),
                    self.pos@[view]@,
                ),
            }
        }
    }

    fn sample_count(&self) -> (r: u32) {
        self.samples
    }

    fn width(&self) -> (r: u32) {
        self.width
    }

    fn height(&self) -> (r: u32) {
        self.height
    }

    fn mode(&self) -> (m: Mode) {
        Mode::Separate
    }

    fn get_ray(&self, x: Fx, y: Fx, channel: Channel) -> (r: Ray) {
        let n = self.pos.len();
        if n == 0 || self.lower_left_corner.len() != n || self.horizontal.len() != n
            || self.vertical.len() != n {
            return Ray::invalid();
        }
        let sel = x.mul(Fx::from_int(3)).add(y.mul(self.lenticular_slope)).add(
            Fx::from_int(4),
        ).add(Fx::from_int(channel_index(channel) as i64));
        let ti = sel.trunc();
        let view: usize = if ti < 0 {
            0
        } else {
            ((ti as u64) % (n as u64)) as usize
        };
        let s = x.div(Fx::from_int(self.width as i64));
        let t = y.div(Fx::from_int(self.height as i64));
        Ray {
            origin: self.pos[view],
            direction: self.lower_left_corner[view].add(self.horizontal[view].scale(s)).add(
                self.vertical[view].scale(t),
            ).sub(self.pos[view]),
        }
    }
}

} // verus!
