//! Three- and four-component fixed-point vectors.
//!
//! A `V3` is a direction or a position in space; a `V4` packs a plane
//! equation. Componentwise operations inherit the total, saturating
//! semantics of the scalar kernel, and each has an exact specification.

use vstd::prelude::*;
use crate::fx;
use crate::fx::Fx;

verus! {

/// A direction, distance or position in space.
#[derive(Clone, Copy, Debug, PartialEq, Eq, Structural)]
pub struct V3 {
    pub x: Fx,
    pub y: Fx,
    pub z: Fx,
}

/// A four-component vector (used for homogeneous plane equations).
#[derive(Clone, Copy, Debug, PartialEq, Eq, Structural)]
pub struct V4 {
    pub x: Fx,
    pub y: Fx,
    pub z: Fx,
    pub w: Fx,
}

/// What `V3::add` returns.
pub open spec fn spec_vadd(a: V3, b: V3) -> V3 {
    V3 {
        x: fx::spec_add(a.x as int, b.x as int) as i64,
        y: fx::spec_add(a.y as int, b.y as int) as i64,
        z: fx::spec_add(a.z as int, b.z as int) as i64,
    }
}

/// What `V3::sub` returns.
pub open spec fn spec_vsub(a: V3, b: V3) -> V3 {
    V3 {
        x: fx::spec_sub(a.x as int, b.x as int) as i64,
        y: fx::spec_sub(a.y as int, b.y as int) as i64,
        z: fx::spec_sub(a.z as int, b.z as int) as i64,
    }
}

/// What `V3::neg` returns.
pub open spec fn spec_vneg(a: V3) -> V3 {
    V3 {
        x: fx::spec_neg(a.x as int) as i64,
        y: fx::spec_neg(a.y as int) as i64,
        z: fx::spec_neg(a.z as int) as i64,
    }
}

/// What `V3::scale` returns.
pub open spec fn spec_vscale(a: V3, f: int) -> V3 {
    V3 {
        x: fx::spec_mul(a.x as int, f) as i64,
        y: fx::spec_mul(a.y as int, f) as i64,
        z: fx::spec_mul(a.z as int, f) as i64,
    }
}

/// What `V3::divs` returns.
pub open spec fn spec_vdivs(a: V3, f: int) -> V3 {
    V3 {
        x: fx::spec_div(a.x as int, f) as i64,
        y: fx::spec_div(a.y as int, f) as i64,
        z: fx::spec_div(a.z as int, f) as i64,
    }
}

/// What `V3::dot` returns.
pub open spec fn spec_dot(a: V3, b: V3) -> int {
    fx::spec_add(
        fx::spec_add(
            fx::spec_mul(a.x as int, b.x as int),
            fx::spec_mul(a.y as int, b.y as int),
        ),
        fx::spec_mul(a.z as int, b.z as int),
    )
}

/// What `V3::norm2` returns: the squared magnitude.
pub open spec fn spec_norm2(a: V3) -> int {
    spec_dot(a, a)
}

/// What `V3::mag` returns: the magnitude.
pub open spec fn spec_mag(a: V3) -> int {
    fx::spec_sqrt(spec_norm2(a))
}

/// What `V3::cross` returns.
pub open spec fn spec_cross(a: V3, b: V3) -> V3 {
    V3 {
        x: fx::spec_sub(
            fx::spec_mul(a.y as int, b.z as int),
            fx::spec_mul(a.z as int, b.y as int),
        ) as i64,
        y: fx::spec_sub(
            fx::spec_mul(a.z as int, b.x as int),
            fx::spec_mul(a.x as int, b.z as int),
        ) as i64,
        z: fx::spec_sub(
            fx::spec_mul(a.x as int, b.y as int),
            fx::spec_mul(a.y as int, b.x as int),
        ) as i64,
    }
}

/// What `V3::normalize` returns: each component divided by the magnitude
/// (total: a vector of squared magnitude zero maps to the zero vector's
/// quotient, i.e. stays degenerate).
pub open spec fn spec_normalize(a: V3) -> V3 {
    let l = spec_mag(a);
    V3 {
        x: fx::spec_div(a.x as int, l) as i64,
        y: fx::spec_div(a.y as int, l) as i64,
        z: fx::spec_div(a.z as int, l) as i64,
    }
}

impl V3 {
    /// The zero vector.
    pub fn zero() -> (r: V3)
        ensures
            r == (V3 { x: 0i64, y: 0i64, z: 0i64 }),
    {
        V3 { x: 0, y: 0, z: 0 }
    }

    /// Componentwise saturating addition.
    pub fn add(self, o: V3) -> (r: V3)
        ensures
            r == spec_vadd(self, o),
    {
        V3 { x: fx::add(self.x, o.x), y: fx::add(self.y, o.y), z: fx::add(self.z, o.z) }
    }

    /// Componentwise saturating subtraction.
    pub fn sub(self, o: V3) -> (r: V3)
        ensures
            r == spec_vsub(self, o),
    {
        V3 { x: fx::sub(self.x, o.x), y: fx::sub(self.y, o.y), z: fx::sub(self.z, o.z) }
    }

    /// Componentwise negation.
    pub fn neg(self) -> (r: V3)
        ensures
            r == spec_vneg(self),
    {
        V3 { x: fx::neg(self.x), y: fx::neg(self.y), z: fx::neg(self.z) }
    }

    /// Scale by a scalar.
    pub fn scale(self, f: Fx) -> (r: V3)
        ensures
            r == spec_vscale(self, f as int),
    {
        V3 { x: fx::mul(self.x, f), y: fx::mul(self.y, f), z: fx::mul(self.z, f) }
    }

    /// Divide componentwise by a scalar.
    pub fn divs(self, f: Fx) -> (r: V3)
        ensures
            r == spec_vdivs(self, f as int),
    {
        V3 { x: fx::div(self.x, f), y: fx::div(self.y, f), z: fx::div(self.z, f) }
    }

    /// Inner product.
    pub fn dot(self, o: V3) -> (r: Fx)
        ensures
            r == spec_dot(self, o),
    {
        fx::add(
            fx::add(fx::mul(self.x, o.x), fx::mul(self.y, o.y)),
            fx::mul(self.z, o.z),
        )
    }

    /// Squared magnitude.
    pub fn norm2(self) -> (r: Fx)
        ensures
            r == spec_norm2(self),
    {
        self.dot(self)
    }

    /// Magnitude.
    pub fn mag(self) -> (r: Fx)
        ensures
            r == spec_mag(self),
    {
        fx::sqrt(self.norm2())
    }

    /// Cross product.
    pub fn cross(self, o: V3) -> (r: V3)
        ensures
            r == spec_cross(self, o),
    {
        V3 {
            x: fx::sub(fx::mul(self.y, o.z), fx::mul(self.z, o.y)),
            y: fx::sub(fx::mul(self.z, o.x), fx::mul(self.x, o.z)),
            z: fx::sub(fx::mul(self.x, o.y), fx::mul(self.y, o.x)),
        }
    }

    /// Divide by the magnitude, yielding an (approximately) unit vector.
    pub fn normalize(self) -> (r: V3)
        ensures
            r == spec_normalize(self),
    {
        let l: Fx = self.mag();
        V3 { x: fx::div(self.x, l), y: fx::div(self.y, l), z: fx::div(self.z, l) }
    }
}

/// A squared magnitude is never negative.
pub proof fn lemma_norm2_nonneg(a: V3)
    ensures
        spec_norm2(a) >= 0,
{
    assert((a.x as int) * (a.x as int) >= 0) by (nonlinear_arith);
    assert((a.y as int) * (a.y as int) >= 0) by (nonlinear_arith);
    assert((a.z as int) * (a.z as int) >= 0) by (nonlinear_arith);
    vstd::arithmetic::div_mod::lemma_div_pos_is_pos((a.x as int) * (a.x as int), fx::ONE as int);
    vstd::arithmetic::div_mod::lemma_div_pos_is_pos((a.y as int) * (a.y as int), fx::ONE as int);
    vstd::arithmetic::div_mod::lemma_div_pos_is_pos((a.z as int) * (a.z as int), fx::ONE as int);
}

impl V4 {
    /// The first three components.
    pub fn xyz(self) -> (r: V3)
        ensures
            r == spec_xyz(self),
    {
        V3 { x: self.x, y: self.y, z: self.z }
    }
}

/// What `V4::xyz` returns.
pub open spec fn spec_xyz(a: V4) -> V3 {
    V3 { x: a.x, y: a.y, z: a.z }
}

} // verus!
