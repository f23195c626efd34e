//! Quaternions: the three imaginary components in `x`, `y`, `z` and the
//! scalar part in `w`, used for rotations.

use crate::fixed::{fx_mul_v, fx_sub_v, Fx, FX_ONE};
use crate::mat::Mat4;
use crate::vec::{
    v4, v4_add, v4_cross3, v4_div_scalar, v4_dot3, v4_mul, v4_scale, v4_sq_len, Vec4, V4,
};
use vstd::prelude::*;

verus! {

#[derive(Clone, Copy, PartialEq, Eq, Structural, Debug)]
pub struct Quat {
    pub q: Vec4,
}

/// Conjugation: the imaginary components flipped.
pub open spec fn quat_conj_v(a: V4) -> V4 {
    v4_mul(a, v4(-FX_ONE as int, -FX_ONE as int, -FX_ONE as int, FX_ONE as int))
}

/// The Hamilton product (right-to-left concatenation), as computed here:
/// `r.xyz = b.xyz * a.w + a.xyz * b.w + cross(a.xyz, b.xyz)` and
/// `r.w = a.w * b.w - dot3(a, b)`.
pub open spec fn quat_mul_v(a: V4, b: V4) -> V4 {
    let r = v4_add(v4_add(v4_scale(a.w, b), v4_scale(b.w, a)), v4_cross3(a, b));
    v4(r.x, r.y, r.z, fx_sub_v(fx_mul_v(a.w, b.w), v4_dot3(a, b)))
}

/// The inverse: the conjugate scaled down by the squared length.
pub open spec fn quat_inverse_v(a: V4) -> V4 {
    v4_div_scalar(quat_conj_v(a), v4_sq_len(a))
}

/// Rotation of `v` by the unit quaternion `a`: `a * v * conj(a)`.
pub open spec fn quat_rotate_unit_v(a: V4, v: V4) -> V4 {
    quat_mul_v(quat_mul_v(a, v), quat_conj_v(a))
}

impl Quat {
    /// The identity rotation.
    pub fn new() -> (r: Quat)
        ensures
            r.q@ == v4(0, 0, 0, FX_ONE as int),
    {
        Quat { q: Vec4::new(Fx::zero(), Fx::zero(), Fx::zero(), Fx::one()) }
    }

    /// A quaternion from its four raw components.
    pub fn from_vec(v: Vec4) -> (r: Quat)
        ensures
            r.q == v,
    {
        Quat { q: v }
    }

    pub fn conjugate(&self) -> (r: Quat)
        ensures
            r.q@ == quat_conj_v(self.q@),
    {
        let neg_one = Fx::new(-FX_ONE);
        Quat { q: self.q.mul(Vec4::new(neg_one, neg_one, neg_one, Fx::one())) }
    }

    pub fn inverse(&self) -> (r: Quat)
        ensures
            r.q@ == quat_inverse_v(self.q@),
    {
        Quat { q: self.conjugate().q.div_scalar(self.q.square_length()) }
    }

    /// The Hamilton product; see `quat_mul_v`.
    pub fn multiply(&self, o: &Quat) -> (r: Quat)
        ensures
            r.q@ == quat_mul_v(self.q@, o.q@),
    {
        let w1 = self.q.w();
        let w2 = o.q.w();
        let m = o.q.scale(w1).add(self.q.scale(w2)).add(self.q.cross3(&o.q));
        Quat { q: Vec4::new(m.x(), m.y(), m.z(), w1.mul(w2).sub(self.q.dot3(&o.q))) }
    }

    /// Rotation of a direction (`v.w` should be zero) by this quaternion,
    /// using the full inverse.
    pub fn rotate(&self, v: &Vec4) -> (r: Vec4)
        ensures
            r@ == quat_mul_v(quat_mul_v(self.q@, v@), quat_inverse_v(self.q@)),
    {
        self.multiply(&Quat::from_vec(*v)).multiply(&self.inverse()).q
    }

    pub fn inverse_rotate(&self, v: &Vec4) -> (r: Vec4)
        ensures
            r@ == quat_mul_v(quat_mul_v(quat_inverse_v(self.q@), v@), self.q@),
    {
        self.inverse().multiply(&Quat::from_vec(*v)).multiply(self).q
    }

    /// Rotation by a unit quaternion: the conjugate stands in for the
    /// inverse.
    pub fn rotate_unit(&self, v: &Vec4) -> (r: Vec4)
        ensures
            r@ == quat_rotate_unit_v(self.q@, v@),
    {
        self.multiply(&Quat::from_vec(*v)).multiply(&self.conjugate()).q
    }

    pub fn inverse_rotate_unit(&self, v: &Vec4) -> (r: Vec4)
        ensures
            r@ == quat_mul_v(quat_mul_v(quat_conj_v(self.q@), v@), self.q@),
    {
        self.conjugate().multiply(&Quat::from_vec(*v)).multiply(self).q
    }

    /// The rotation as a matrix: the rotated basis vectors as columns.
    #[verifier::rlimit(60)]
    #[verifier::spinoff_prover]
    pub fn to_mat3(&self) -> (r: Mat4)
        ensures
            r.c[0]@ == quat_rotate_unit_v(self.q@, v4(FX_ONE as int, 0, 0, 0)),
            r.c[1]@ == quat_rotate_unit_v(self.q@, v4(0, FX_ONE as int, 0, 0)),
            r.c[2]@ == quat_rotate_unit_v(self.q@, v4(0, 0, FX_ONE as int, 0)),
            r.c[3]@ == v4(0, 0, 0, FX_ONE as int),
    {
        Mat4 {
            c: [
                self.rotate_unit(&Vec4::from3(Fx::one(), Fx::zero(), Fx::zero())),
                self.rotate_unit(&Vec4::from3(Fx::zero(), Fx::one(), Fx::zero())),
                self.rotate_unit(&Vec4::from3(Fx::zero(), Fx::zero(), Fx::one())),
                Vec4::new(Fx::zero(), Fx::zero(), Fx::zero(), Fx::one()),
            ],
        }
    }
}

} // verus!
