//! Hit records: what an intersection test reports about the nearest surface.

use crate::fixed::Fx;
use crate::vec::{v4_zero, Vec4, V4};
use vstd::prelude::*;

verus! {

/// Mathematical model of a surface hit, before a material is attached.
pub ghost struct HitV {
    pub point: V4,
    pub normal: V4,
    pub depth: int,
    pub u: int,
    pub v: int,
}

/// The record a successful intersection test fills in. `material` is an
/// index into the scene's material table, attached at the primitive level.
#[derive(Clone, Copy, PartialEq, Eq, Structural, Debug)]
pub struct HitInfo {
    pub point: Vec4,
    pub normal: Vec4,
    pub depth: Fx,
    pub u: Fx,
    pub v: Fx,
    pub material: u32,
}

impl View for HitInfo {
    type V = HitV;

    open spec fn view(&self) -> HitV {
        HitV {
            point: self.point@,
            normal: self.normal@,
            depth: self.depth@,
            u: self.u@,
            v: self.v@,
        }
    }
}

impl HitInfo {
    pub fn new() -> (r: HitInfo)
        ensures
            r@ == (HitV { point: v4_zero(), normal: v4_zero(), depth: 0, u: 0, v: 0 }),
            r.material == 0,
    {
        HitInfo {
            point: Vec4::zero(),
            normal: Vec4::zero(),
            depth: Fx::zero(),
            u: Fx::zero(),
            v: Fx::zero(),
            material: 0,
        }
    }
}

} // verus!
