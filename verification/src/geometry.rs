//! Spatial geometry and ray-intersection math.
//!
//! A ray is an origin, a direction and a maximum length; an intersection
//! records where a ray meets a surface. The closed set of shapes — sphere,
//! plane, disc, axis-aligned cube — is gathered in [`Geometry`], whose
//! `occlude` is proved equivalent to `intersect` returning a hit.

use vstd::prelude::*;
use crate::affine::{spec_transform_point, spec_transform_vector, Affine};
use crate::fx;
use crate::fx::Fx;
use crate::vec::{spec_mag, spec_norm2, spec_normalize, spec_vscale, spec_vsub, spec_vadd, V3};

pub mod cube;
pub mod disc;
pub mod plane;
pub mod sphere;

pub use self::cube::Cube;
pub use self::disc::Disc;
pub use self::plane::Plane;
pub use self::sphere::Sphere;

verus! {

/// A photon's (potential) path.
#[derive(Clone, Copy, Debug, PartialEq, Eq, Structural)]
pub struct Ray {
    /// The photon's origin.
    pub origin: V3,
    /// The photon's direction (normalized on construction).
    pub direction: V3,
    /// The maximum length of the path (`fx::MAX` for an unbounded path).
    pub length: Fx,
}

/// What `Ray::transform` returns: origin and direction mapped through the
/// affine map, the direction renormalized, and the extracted scale folded
/// into the length so that travelled distance stays in world units.
#[verifier::opaque]
pub open spec fn spec_ray_transform(r: Ray, t: Affine) -> Ray {
    let o = spec_transform_point(t, r.origin);
    let d = spec_transform_vector(t, r.direction);
    Ray {
        origin: o,
        direction: spec_normalize(d),
        length: fx::spec_mul(r.length as int, spec_mag(d)) as i64,
    }
}

impl Ray {
    /// Creates an unbounded `Ray` from an `origin` and a `direction`, which
    /// is normalized. The direction must not be degenerate (its fixed-point
    /// squared magnitude must be positive).
    pub fn new(origin: V3, direction: V3) -> (r: Ray)
        requires
            spec_norm2(direction) > 0,
        ensures
            r.origin == origin,
            r.direction == spec_normalize(direction),
            r.length == fx::MAX,
    {
        Ray { origin, direction: direction.normalize(), length: fx::MAX }
    }

    /// Creates a finite `Ray` from an `origin` toward a `target`, whose
    /// length is the distance between the two.
    pub fn from_endpoints(origin: V3, target: V3) -> (r: Ray)
        requires
            spec_norm2(spec_vsub(target, origin)) > 0,
        ensures
            r.origin == origin,
            r.direction == spec_normalize(spec_vsub(target, origin)),
            r.length == spec_mag(spec_vsub(target, origin)),
    {
        let distance: V3 = target.sub(origin);
        let length: Fx = distance.mag();
        Ray { origin, direction: distance.divs(length), length }
    }

    /// Transform a `Ray` by an affine map.
    pub fn transform(self, t: &Affine) -> (r: Ray)
        ensures
            r == spec_ray_transform(self, *t),
    {
        proof {
            reveal(crate::geometry::spec_ray_transform);
        }
        let origin: V3 = t.transform_point(self.origin);
        let direction: V3 = t.transform_vector(self.direction);
        let scale: Fx = direction.mag();
        Ray {
            origin,
            direction: direction.divs(scale),
            length: fx::mul(self.length, scale),
        }
    }
}

/// A description of a point of interaction between a photon and a shape.
#[derive(Clone, Copy, Debug, PartialEq, Eq, Structural)]
pub struct Intersection {
    /// The position in space.
    pub position: V3,
    /// The surface normal at the intersection point, flipped toward the
    /// side the ray arrived from.
    pub normal: V3,
    /// The parametric distance from the ray's origin (always positive):
    /// `position = ray.origin + ray.direction * lambda`.
    pub lambda: Fx,
    /// Whether the ray hit the shape from its inside.
    pub inside: bool,
}

/// The point `lambda` of the way along a ray.
pub open spec fn spec_at(r: Ray, lambda: int) -> V3 {
    spec_vadd(r.origin, spec_vscale(r.direction, lambda))
}

/// A closed family of shapes.
#[derive(Clone, Copy, Debug)]
pub enum Geometry {
    Sphere(Sphere),
    Plane(Plane),
    Disc(Disc),
    Cube(Cube),
}

/// What `Geometry::intersect` returns, by shape.
#[verifier::opaque]
pub open spec fn spec_intersect(g: Geometry, ray: Ray) -> Option<Intersection> {
    match g {
        Geometry::Sphere(s) => sphere::spec_sphere_intersect(s, ray),
        Geometry::Plane(p) => plane::spec_plane_intersect(p, ray),
        Geometry::Disc(d) => disc::spec_disc_intersect(d, ray),
        Geometry::Cube(c) => cube::spec_cube_intersect(c, ray),
    }
}

/// Every reported hit lies strictly ahead of the ray's origin: hits at or
/// behind the origin are rejected by every shape.
pub proof fn lemma_hit_is_ahead(g: Geometry, ray: Ray)
    ensures
        spec_intersect(g, ray) matches Some(h) ==> h.lambda > 0,
{
    reveal(crate::geometry::spec_intersect);
}

impl Geometry {
    /// Compute the first (nearest to `ray`'s origin) intersection between
    /// the shape and `ray`, or `None` when there is none.
    pub fn intersect(&self, ray: &Ray) -> (r: Option<Intersection>)
        ensures
            r == spec_intersect(*self, *ray),
    {
        proof {
            reveal(crate::geometry::spec_intersect);
        }
        match self {
            Geometry::Sphere(s) => s.intersect(ray),
            Geometry::Plane(p) => p.intersect(ray),
            Geometry::Disc(d) => d.intersect(ray),
            Geometry::Cube(c) => c.intersect(ray),
        }
    }

    /// An intersection test that only answers whether any intersection
    /// exists; it agrees exactly with `intersect` returning a hit.
    pub fn occlude(&self, ray: &Ray) -> (r: bool)
        ensures
            r == spec_intersect(*self, *ray) is Some,
    {
        self.intersect(ray).is_some()
    }
}

} // verus!
