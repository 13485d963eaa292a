//! Discs: a plane intersection restricted to a radius around a center.

use vstd::prelude::*;
use crate::fx;
use crate::fx::Fx;
use crate::geometry::plane::{equation_intersect, spec_equation_intersect};
use crate::geometry::{Intersection, Ray};
use crate::vec::{spec_dot, spec_norm2, spec_normalize, spec_vsub, V3};

verus! {

/// A two-dimensional disc.
#[derive(Clone, Copy, Debug, PartialEq, Eq, Structural)]
pub struct Disc {
    /// The disc's center point.
    pub center: V3,
    /// The disc's normal.
    pub normal: V3,
    /// The disc's radius.
    pub radius: Fx,
}

/// The plane-equation offset of a disc: `-dot(normal, center)`, so that the
/// disc's carrier plane is exactly the `Plane` with the same normal whose
/// distance from the origin is `dot(normal, center)`.
pub open spec fn spec_disc_offset(d: Disc) -> int {
    fx::spec_neg(spec_dot(d.normal, d.center))
}

/// What `Disc::intersect` returns: the carrier plane's hit, kept only when
/// the hit position lies within `radius` of the center (by squared
/// distance).
pub open spec fn spec_disc_intersect(d: Disc, ray: Ray) -> Option<Intersection> {
    match spec_equation_intersect(d.normal, spec_disc_offset(d), ray) {
        None => None,
        Some(hit) => {
            if spec_norm2(spec_vsub(hit.position, d.center)) > fx::spec_mul(
                d.radius as int,
                d.radius as int,
            ) {
                None
            } else {
                Some(hit)
            }
        },
    }
}

/// A ray that starts strictly off a disc's carrier plane and runs
/// strictly away from it never intersects the disc.
pub proof fn lemma_disc_miss(d: Disc, ray: Ray)
    requires
        ({
            let lo = crate::geometry::plane::spec_height(d.normal, spec_disc_offset(d), ray.origin);
            let ld = spec_dot(d.normal, ray.direction);
            (lo > 0 && ld > 0) || (lo < 0 && ld < 0)
        }),
    ensures
        spec_disc_intersect(d, ray) is None,
{
    let lo = crate::geometry::plane::spec_height(d.normal, spec_disc_offset(d), ray.origin);
    let ld = spec_dot(d.normal, ray.direction);
    fx::lemma_div_sign(fx::spec_neg(lo), ld);
}

/// A disc and a plane that share center, normal and carrier offset agree
/// exactly on every hit within the disc's radius, and disagree exactly on
/// the hits beyond it: there the plane still reports the hit and the disc
/// reports none.
pub proof fn lemma_disc_plane_agreement(d: Disc, p: crate::geometry::plane::Plane, ray: Ray)
    requires
        crate::vec::spec_xyz(p.equation) == d.normal,
        p.equation.w as int == spec_disc_offset(d),
    ensures
        match crate::geometry::plane::spec_plane_intersect(p, ray) {
            None => spec_disc_intersect(d, ray) is None,
            Some(hit) => {
                &&& spec_norm2(spec_vsub(hit.position, d.center)) <= fx::spec_mul(
                    d.radius as int,
                    d.radius as int,
                ) ==> spec_disc_intersect(d, ray) == Some(hit)
                &&& spec_norm2(spec_vsub(hit.position, d.center)) > fx::spec_mul(
                    d.radius as int,
                    d.radius as int,
                ) ==> spec_disc_intersect(d, ray) is None
            },
        },
{
}

impl Disc {
    /// Creates a `Disc` with radius `radius` and surface normal `normal`
    /// (normalized on construction, so it must not be degenerate), centered
    /// on `center`.
    pub fn new(center: V3, normal: V3, radius: Fx) -> (r: Disc)
        requires
            spec_norm2(normal) > 0,
        ensures
            r.center == center,
            r.normal == spec_normalize(normal),
            r.radius == radius,
    {
        Disc { center, normal: normal.normalize(), radius }
    }

    /// The intersection with `ray`, if any.
    pub fn intersect(&self, ray: &Ray) -> (r: Option<Intersection>)
        ensures
            r == spec_disc_intersect(*self, *ray),
    {
        let w: Fx = fx::neg(self.normal.dot(self.center));
        match equation_intersect(self.normal, w, ray) {
            None => None,
            Some(hit) => {
                if hit.position.sub(self.center).norm2() > fx::mul(self.radius, self.radius) {
                    None
                } else {
                    Some(hit)
                }
            },
        }
    }
}

} // verus!
