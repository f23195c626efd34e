//! Column-major 4x4 matrices over fixed-point scalars.

use crate::fixed::{Fx, FX_ONE};
use crate::vec::{v4, v4_dot, Vec4, V4};
use vstd::prelude::*;

verus! {

#[derive(Clone, Copy)]
pub struct Mat4 {
    pub c: [Vec4; 4],
}

/// The transposed model: row `i` of the columns becomes column `i`.
pub open spec fn mat4_transpose_col_v(a: Mat4, i: int) -> V4 {
    if i == 0 {
        v4(a.c[0]@.x, a.c[1]@.x, a.c[2]@.x, a.c[3]@.x)
    } else if i == 1 {
        v4(a.c[0]@.y, a.c[1]@.y, a.c[2]@.y, a.c[3]@.y)
    } else if i == 2 {
        v4(a.c[0]@.z, a.c[1]@.z, a.c[2]@.z, a.c[3]@.z)
    } else {
        v4(a.c[0]@.w, a.c[1]@.w, a.c[2]@.w, a.c[3]@.w)
    }
}

/// Column `j` of the product: this matrix's columns dotted with the other's
/// transposed columns.
pub open spec fn mat4_mul_col_v(a: Mat4, b: Mat4, j: int) -> V4 {
    v4(
        v4_dot(a.c[j]@, mat4_transpose_col_v(b, 0)),
        v4_dot(a.c[j]@, mat4_transpose_col_v(b, 1)),
        v4_dot(a.c[j]@, mat4_transpose_col_v(b, 2)),
        v4_dot(a.c[j]@, mat4_transpose_col_v(b, 3)),
    )
}

impl Mat4 {
    /// The identity matrix.
    pub fn new() -> (r: Mat4)
        ensures
            r.c[0]@ == v4(FX_ONE as int, 0, 0, 0),
            r.c[1]@ == v4(0, FX_ONE as int, 0, 0),
            r.c[2]@ == v4(0, 0, FX_ONE as int, 0),
            r.c[3]@ == v4(0, 0, 0, FX_ONE as int),
    {
        let o = Fx::one();
        let z = Fx::zero();
        Mat4 {
            c: [
                Vec4::new(o, z, z, z),
                Vec4::new(z, o, z, z),
                Vec4::new(z, z, o, z),
                Vec4::new(z, z, z, o),
            ],
        }
    }

    pub fn transpose(&self) -> (r: Mat4)
        ensures
            r.c[0]@ == mat4_transpose_col_v(*self, 0),
            r.c[1]@ == mat4_transpose_col_v(*self, 1),
            r.c[2]@ == mat4_transpose_col_v(*self, 2),
            r.c[3]@ == mat4_transpose_col_v(*self, 3),
    {
        Mat4 {
            c: [
                Vec4::new(self.c[0].x(), self.c[1].x(), self.c[2].x(), self.c[3].x()),
                Vec4::new(self.c[0].y(), self.c[1].y(), self.c[2].y(), self.c[3].y()),
                Vec4::new(self.c[0].z(), self.c[1].z(), self.c[2].z(), self.c[3].z()),
                Vec4::new(self.c[0].w(), self.c[1].w(), self.c[2].w(), self.c[3].w()),
            ],
        }
    }

    /// Matrix product, built column by column through the transpose.
    pub fn mul(self, o: Mat4) -> (r: Mat4)
        ensures
            r.c[0]@ == mat4_mul_col_v(self, o, 0),
            r.c[1]@ == mat4_mul_col_v(self, o, 1),
            r.c[2]@ == mat4_mul_col_v(self, o, 2),
            r.c[3]@ == mat4_mul_col_v(self, o, 3),
    {
        let m = o.transpose();
        Mat4 {
            c: [
                Vec4::new(
                    self.c[0].dot(&m.c[0]),
                    self.c[0].dot(&m.c[1]),
                    self.c[0].dot(&m.c[2]),
                    self.c[0].dot(&m.c[3]),
                ),
                Vec4::new(
                    self.c[1].dot(&m.c[0]),
                    self.c[1].dot(&m.c[1]),
                    self.c[1].dot(&m.c[2]),
                    self.c[1].dot(&m.c[3]),
                ),
                Vec4::new(
                    self.c[2].dot(&m.c[0]),
                    self.c[2].dot(&m.c[1]),
                    self.c[2].dot(&m.c[2]),
                    self.c[2].dot(&m.c[3]),
                ),
                Vec4::new(
                    self.c[3].dot(&m.c[0]),
                    self.c[3].dot(&m.c[1]),
                    self.c[3].dot(&m.c[2]),
                    self.c[3].dot(&m.c[3]),
                ),
            ],
        }
    }

    /// The matrix applied to a vector: each column dotted with it.
    pub fn mul_vec(self, o: Vec4) -> (r: Vec4)
        ensures
            r@ == v4(
                v4_dot(self.c[0]@, o@),
                v4_dot(self.c[1]@, o@),
                v4_dot(self.c[2]@, o@),
                v4_dot(self.c[3]@, o@),
            ),
    {
        Vec4::new(self.c[0].dot(&o), self.c[1].dot(&o), self.c[2].dot(&o), self.c[3].dot(&o))
    }
}

impl PartialEq for Mat4 {
    fn eq(&self, o: &Mat4) -> (r: bool) {
        self.c[0] == o.c[0] && self.c[1] == o.c[1] && self.c[2] == o.c[2] && self.c[3] == o.c[3]
    }
}

impl vstd::std_specs::cmp::PartialEqSpecImpl for Mat4 {
    open spec fn obeys_eq_spec() -> bool {
        true
    }

    open spec fn eq_spec(&self, o: &Mat4) -> bool {
        self.c[0] == o.c[0] && self.c[1] == o.c[1] && self.c[2] == o.c[2] && self.c[3] == o.c[3]
    }
}

} // verus!
