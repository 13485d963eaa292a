//! Affine maps of space: a 3x3 linear part plus a translation.
//!
//! Objects are positioned with such a map; its inverse is computed once at
//! construction by the adjugate formula. In fixed point the inverse is the
//! truncated quotient of the adjugate by the determinant, and construction
//! reports a zero determinant instead of dividing by it.

use vstd::prelude::*;
use crate::fx;
use crate::fx::Fx;
use crate::vec::{spec_cross, spec_dot, spec_vadd, spec_vneg, spec_xyz, V3, V4};

verus! {

/// A 3x3 matrix, stored by rows.
#[derive(Clone, Copy, Debug, PartialEq, Eq, Structural)]
pub struct Mat3 {
    pub r0: V3,
    pub r1: V3,
    pub r2: V3,
}

/// An affine map: `p` goes to `linear * p + translation`.
#[derive(Clone, Copy, Debug, PartialEq, Eq, Structural)]
pub struct Affine {
    pub linear: Mat3,
    pub translation: V3,
}

/// What `Mat3::mul_vec` returns.
pub open spec fn spec_mat_vec(m: Mat3, v: V3) -> V3 {
    V3 {
        x: spec_dot(m.r0, v) as i64,
        y: spec_dot(m.r1, v) as i64,
        z: spec_dot(m.r2, v) as i64,
    }
}

/// What `Mat3::transpose` returns.
pub open spec fn spec_transpose(m: Mat3) -> Mat3 {
    Mat3 {
        r0: V3 { x: m.r0.x, y: m.r1.x, z: m.r2.x },
        r1: V3 { x: m.r0.y, y: m.r1.y, z: m.r2.y },
        r2: V3 { x: m.r0.z, y: m.r1.z, z: m.r2.z },
    }
}

/// What `Mat3::det` returns: the scalar triple product of the rows.
pub open spec fn spec_det(m: Mat3) -> int {
    spec_dot(m.r0, spec_cross(m.r1, m.r2))
}

/// What `Mat3::inverse` returns when the determinant is nonzero: the
/// adjugate divided by the determinant. The columns of the inverse are the
/// pairwise cross products of the rows over the determinant.
pub open spec fn spec_mat_inverse(m: Mat3) -> Mat3 {
    let c0 = spec_cross(m.r1, m.r2);
    let c1 = spec_cross(m.r2, m.r0);
    let c2 = spec_cross(m.r0, m.r1);
    let d = spec_det(m);
    Mat3 {
        r0: V3 {
            x: fx::spec_div(c0.x as int, d) as i64,
            y: fx::spec_div(c1.x as int, d) as i64,
            z: fx::spec_div(c2.x as int, d) as i64,
        },
        r1: V3 {
            x: fx::spec_div(c0.y as int, d) as i64,
            y: fx::spec_div(c1.y as int, d) as i64,
            z: fx::spec_div(c2.y as int, d) as i64,
        },
        r2: V3 {
            x: fx::spec_div(c0.z as int, d) as i64,
            y: fx::spec_div(c1.z as int, d) as i64,
            z: fx::spec_div(c2.z as int, d) as i64,
        },
    }
}

impl Mat3 {
    /// The identity matrix.
    pub fn identity() -> (r: Mat3)
        ensures
            r == spec_mat3_identity(),
    {
        Mat3 {
            r0: V3 { x: fx::ONE, y: 0, z: 0 },
            r1: V3 { x: 0, y: fx::ONE, z: 0 },
            r2: V3 { x: 0, y: 0, z: fx::ONE },
        }
    }

    /// Matrix-vector product.
    pub fn mul_vec(self, v: V3) -> (r: V3)
        ensures
            r == spec_mat_vec(self, v),
    {
        V3 { x: self.r0.dot(v), y: self.r1.dot(v), z: self.r2.dot(v) }
    }

    /// Transpose.
    pub fn transpose(self) -> (r: Mat3)
        ensures
            r == spec_transpose(self),
    {
        Mat3 {
            r0: V3 { x: self.r0.x, y: self.r1.x, z: self.r2.x },
            r1: V3 { x: self.r0.y, y: self.r1.y, z: self.r2.y },
            r2: V3 { x: self.r0.z, y: self.r1.z, z: self.r2.z },
        }
    }

    /// Determinant.
    pub fn det(self) -> (r: Fx)
        ensures
            r == spec_det(self),
    {
        self.r0.dot(self.r1.cross(self.r2))
    }

    /// The inverse, or `None` when the determinant is zero.
    pub fn inverse(self) -> (r: Option<Mat3>)
        ensures
            spec_det(self) == 0 ==> r is None,
            spec_det(self) != 0 ==> r == Some(spec_mat_inverse(self)),
    {
        let c0: V3 = self.r1.cross(self.r2);
        let c1: V3 = self.r2.cross(self.r0);
        let c2: V3 = self.r0.cross(self.r1);
        let d: Fx = self.r0.dot(c0);
        if d == 0 {
            None
        } else {
            Some(
                Mat3 {
                    r0: V3 { x: fx::div(c0.x, d), y: fx::div(c1.x, d), z: fx::div(c2.x, d) },
                    r1: V3 { x: fx::div(c0.y, d), y: fx::div(c1.y, d), z: fx::div(c2.y, d) },
                    r2: V3 { x: fx::div(c0.z, d), y: fx::div(c1.z, d), z: fx::div(c2.z, d) },
                },
            )
        }
    }
}

/// The identity matrix.
pub open spec fn spec_mat3_identity() -> Mat3 {
    Mat3 {
        r0: V3 { x: fx::ONE as i64, y: 0i64, z: 0i64 },
        r1: V3 { x: 0i64, y: fx::ONE as i64, z: 0i64 },
        r2: V3 { x: 0i64, y: 0i64, z: fx::ONE as i64 },
    }
}

/// What `Affine::transform_point` returns.
pub open spec fn spec_transform_point(a: Affine, p: V3) -> V3 {
    spec_vadd(spec_mat_vec(a.linear, p), a.translation)
}

/// What `Affine::transform_vector` returns.
pub open spec fn spec_transform_vector(a: Affine, v: V3) -> V3 {
    spec_mat_vec(a.linear, v)
}

/// What `Affine::inverse` returns when the linear part is invertible.
pub open spec fn spec_affine_inverse(a: Affine) -> Affine {
    let inv = spec_mat_inverse(a.linear);
    Affine { linear: inv, translation: spec_vneg(spec_mat_vec(inv, a.translation)) }
}

impl Affine {
    /// The identity map.
    pub fn identity() -> (r: Affine)
        ensures
            r.linear == spec_mat3_identity(),
            r.translation == (V3 { x: 0i64, y: 0i64, z: 0i64 }),
    {
        Affine { linear: Mat3::identity(), translation: V3::zero() }
    }

    /// Apply to a position.
    pub fn transform_point(self, p: V3) -> (r: V3)
        ensures
            r == spec_transform_point(self, p),
    {
        self.linear.mul_vec(p).add(self.translation)
    }

    /// Apply to a direction (the translation does not act).
    pub fn transform_vector(self, v: V3) -> (r: V3)
        ensures
            r == spec_transform_vector(self, v),
    {
        self.linear.mul_vec(v)
    }

    /// The inverse map, or `None` when the linear part is singular.
    pub fn inverse(self) -> (r: Option<Affine>)
        ensures
            spec_det(self.linear) == 0 ==> r is None,
            spec_det(self.linear) != 0 ==> r == Some(spec_affine_inverse(self)),
    {
        match self.linear.inverse() {
            None => None,
            Some(inv) => Some(
                Affine { linear: inv, translation: inv.mul_vec(self.translation).neg() },
            ),
        }
    }
}

/// A 4x4 matrix, stored by rows.
#[derive(Clone, Copy, Debug, PartialEq, Eq, Structural)]
pub struct Mat4 {
    pub r0: V4,
    pub r1: V4,
    pub r2: V4,
    pub r3: V4,
}

/// A projective map of space: a homogeneous matrix applied to homogeneous
/// points, followed by the perspective divide. Unlike an [`Affine`] map it
/// can carry a perspective projection.
#[derive(Clone, Copy, Debug, PartialEq, Eq, Structural)]
pub struct Projective {
    pub matrix: Mat4,
}

/// One matrix row applied to a homogeneous point whose fourth coordinate
/// is one (so the product with the row's last component is the component
/// itself, exactly).
pub open spec fn spec_row_apply(r: V4, p: V3) -> int {
    fx::spec_add(spec_dot(spec_xyz(r), p), r.w as int)
}

/// One matrix row applied to a homogeneous point.
fn row_apply(r: V4, p: V3) -> (h: Fx)
    ensures
        h == spec_row_apply(r, p),
{
    fx::add(r.xyz().dot(p), r.w)
}

/// What `Projective::transform_point` returns: the four row products
/// against the homogeneous point, the first three divided by the fourth
/// (a vanishing fourth coordinate saturates, standing in for a point at
/// infinity).
pub open spec fn spec_projective_point(m: Mat4, p: V3) -> V3 {
    let w = spec_row_apply(m.r3, p);
    V3 {
        x: fx::spec_div(spec_row_apply(m.r0, p), w) as i64,
        y: fx::spec_div(spec_row_apply(m.r1, p), w) as i64,
        z: fx::spec_div(spec_row_apply(m.r2, p), w) as i64,
    }
}

impl Projective {
    /// The identity map.
    pub fn identity() -> (r: Projective)
        ensures
            r.matrix == (Mat4 {
                r0: V4 { x: fx::ONE, y: 0i64, z: 0i64, w: 0i64 },
                r1: V4 { x: 0i64, y: fx::ONE, z: 0i64, w: 0i64 },
                r2: V4 { x: 0i64, y: 0i64, z: fx::ONE, w: 0i64 },
                r3: V4 { x: 0i64, y: 0i64, z: 0i64, w: fx::ONE },
            }),
    {
        Projective {
            matrix: Mat4 {
                r0: V4 { x: fx::ONE, y: 0, z: 0, w: 0 },
                r1: V4 { x: 0, y: fx::ONE, z: 0, w: 0 },
                r2: V4 { x: 0, y: 0, z: fx::ONE, w: 0 },
                r3: V4 { x: 0, y: 0, z: 0, w: fx::ONE },
            },
        }
    }

    /// Apply to a position, with the perspective divide.
    pub fn transform_point(self, p: V3) -> (r: V3)
        ensures
            r == spec_projective_point(self.matrix, p),
    {
        let x: Fx = row_apply(self.matrix.r0, p);
        let y: Fx = row_apply(self.matrix.r1, p);
        let z: Fx = row_apply(self.matrix.r2, p);
        let w: Fx = row_apply(self.matrix.r3, p);
        V3 { x: fx::div(x, w), y: fx::div(y, w), z: fx::div(z, w) }
    }
}

} // verus!
