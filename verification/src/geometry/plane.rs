//! Infinite planes and their ray intersection.

use vstd::prelude::*;
use crate::fx;
use crate::fx::Fx;
use crate::geometry::{spec_at, Intersection, Ray};
use crate::vec::{spec_dot, spec_norm2, spec_normalize, spec_vneg, spec_xyz, V3, V4};

verus! {

/// An infinite, two-dimensional plane, stored as the homogeneous equation
/// `(normal, -distance)`: a point `p` lies on the plane when
/// `dot(normal, p) - distance == 0`.
#[derive(Clone, Copy, Debug, PartialEq, Eq, Structural)]
pub struct Plane {
    /// The plane equation.
    pub equation: V4,
}

/// The signed height of a point over the plane equation `(n, w)`:
/// `dot(n, p) + w`.
pub open spec fn spec_height(n: V3, w: int, p: V3) -> int {
    fx::spec_add(spec_dot(n, p), w)
}

/// The parametric hit distance for a plane equation `(n, w)`:
/// `-height(origin) / dot(n, direction)`.
pub open spec fn spec_plane_lambda(n: V3, w: int, ray: Ray) -> int {
    fx::spec_div(fx::spec_neg(spec_height(n, w, ray.origin)), spec_dot(n, ray.direction))
}

/// What intersecting the bare plane equation `(n, w)` returns: the implicit
/// equation is solved for the distance; the ray arrives from the inside
/// when it runs along the normal; nonpositive distances are rejected.
pub open spec fn spec_equation_intersect(n: V3, w: int, ray: Ray) -> Option<Intersection> {
    let lambda = spec_plane_lambda(n, w, ray);
    let inside = spec_dot(n, ray.direction) > 0;
    if lambda <= 0 {
        None
    } else {
        Some(
            Intersection {
                position: spec_at(ray, lambda),
                normal: if inside {
                    spec_vneg(n)
                } else {
                    n
                },
                lambda: lambda as i64,
                inside,
            },
        )
    }
}

/// What `Plane::intersect` returns.
pub open spec fn spec_plane_intersect(p: Plane, ray: Ray) -> Option<Intersection> {
    spec_equation_intersect(spec_xyz(p.equation), p.equation.w as int, ray)
}

/// A ray whose origin lies strictly off a plane and whose direction runs
/// strictly away from it (the direction's height rate has the same sign
/// as the origin's height) never intersects the plane.
pub proof fn lemma_plane_miss(p: Plane, ray: Ray)
    requires
        ({
            let n = spec_xyz(p.equation);
            let lo = spec_height(n, p.equation.w as int, ray.origin);
            let ld = spec_dot(n, ray.direction);
            (lo > 0 && ld > 0) || (lo < 0 && ld < 0)
        }),
    ensures
        spec_plane_intersect(p, ray) is None,
{
    let n = spec_xyz(p.equation);
    let lo = spec_height(n, p.equation.w as int, ray.origin);
    let ld = spec_dot(n, ray.direction);
    fx::lemma_div_sign(fx::spec_neg(lo), ld);
}

impl Plane {
    /// Creates a `Plane` with surface normal `normal` (normalized on
    /// construction, so it must not be degenerate), at signed distance
    /// `distance` from the origin along the normal.
    pub fn new(normal: V3, distance: Fx) -> (r: Plane)
        requires
            spec_norm2(normal) > 0,
        ensures
            spec_xyz(r.equation) == spec_normalize(normal),
            r.equation.w == fx::spec_neg(distance as int),
    {
        let n: V3 = normal.normalize();
        Plane { equation: V4 { x: n.x, y: n.y, z: n.z, w: fx::neg(distance) } }
    }

    /// The intersection with `ray`, if any.
    pub fn intersect(&self, ray: &Ray) -> (r: Option<Intersection>)
        ensures
            r == spec_plane_intersect(*self, *ray),
    {
        equation_intersect(self.equation.xyz(), self.equation.w, ray)
    }
}

/// Intersect a bare plane equation `(n, w)` with a ray.
pub fn equation_intersect(n: V3, w: Fx, ray: &Ray) -> (r: Option<Intersection>)
    ensures
        r == spec_equation_intersect(n, w as int, *ray),
{
    let lo: Fx = fx::add(n.dot(ray.origin), w);
    let ld: Fx = n.dot(ray.direction);
    let lambda: Fx = fx::div(fx::neg(lo), ld);
    let inside: bool = ld > 0;

    if lambda <= 0 {
        return None;
    }

    let position: V3 = ray.origin.add(ray.direction.scale(lambda));
    let normal: V3 = if inside {
        n.neg()
    } else {
        n
    };

    Some(Intersection { position, normal, lambda, inside })
}

} // verus!
