//! Rays: an origin and a direction, with evaluation at a parametric distance.

use crate::fixed::Fx;
use crate::quaternion::{quat_rotate_unit_v, Quat};
use crate::vec::{v4_add, v4_scale, v4_zero, Vec4, V4};
use vstd::prelude::*;

verus! {

/// Mathematical model of a ray.
pub ghost struct RayV {
    pub origin: V4,
    pub direction: V4,
}

#[derive(Clone, Copy, PartialEq, Eq, Structural, Debug)]
pub struct Ray {
    pub origin: Vec4,
    pub direction: Vec4,
}

impl View for Ray {
    type V = RayV;

    open spec fn view(&self) -> RayV {
        RayV { origin: self.origin@, direction: self.direction@ }
    }
}

/// The point reached after travelling `dist` along the ray.
pub open spec fn ray_point_at_v(r: RayV, dist: int) -> V4 {
    v4_add(r.origin, v4_scale(dist, r.direction))
}

impl Ray {
    pub fn new(origin: Vec4, dir: Vec4) -> (r: Ray)
        ensures
            r@ == (RayV { origin: origin@, direction: dir@ }),
    {
        Ray { origin, direction: dir }
    }

    /// The placeholder ray used before the first bounce.
    pub fn invalid() -> (r: Ray)
        ensures
            r@ == (RayV { origin: v4_zero(), direction: v4_zero() }),
    {
        Ray { origin: Vec4::zero(), direction: Vec4::zero() }
    }

    pub fn point_at(&self, dist: Fx) -> (p: Vec4)
        ensures
            p@ == ray_point_at_v(self@, dist@),
    {
        self.origin.add(self.direction.scale(dist))
    }

    /// The ray rotated by a unit quaternion.
    pub fn rotate(&self, rot: &Quat) -> (r: Ray)
        ensures
            r@ == (RayV {
                origin: quat_rotate_unit_v(rot.q@, self.origin@),
                direction: quat_rotate_unit_v(rot.q@, self.direction@),
            }),
    {
        Ray {
            origin: rot.rotate_unit(&self.origin),
            direction: rot.rotate_unit(&self.direction),
        }
    }
}

} // verus!
