//! Spheres and their analytic ray intersection.

use vstd::prelude::*;
use crate::fx;
use crate::fx::Fx;
use crate::geometry::{spec_at, Intersection, Ray};
use crate::vec::{spec_dot, spec_norm2, spec_vdivs, spec_vneg, spec_vsub, V3};

verus! {

/// A sphere.
#[derive(Clone, Copy, Debug, PartialEq, Eq, Structural)]
pub struct Sphere {
    /// The sphere's center point.
    pub center: V3,
    /// The sphere's radius.
    pub radius: Fx,
}

/// The projection of `x` onto `y`: their inner product over `y`'s squared
/// magnitude.
pub open spec fn spec_project(x: V3, y: V3) -> int {
    fx::spec_div(spec_dot(x, y), spec_norm2(y))
}

/// What `Sphere::intersect` returns. The center is projected onto the ray;
/// the squared radius is compared against the squared perpendicular
/// distance (a negative `beta` means a miss); the near root is chosen
/// unless the origin lies inside the sphere, in which case the far root is
/// used and the normal flipped; nonpositive distances are rejected.
pub open spec fn spec_sphere_intersect(s: Sphere, ray: Ray) -> Option<Intersection> {
    let alpha = spec_project(spec_vsub(s.center, ray.origin), ray.direction);
    let perp = spec_vsub(spec_at(ray, alpha), s.center);
    let beta = fx::spec_sub(fx::spec_mul(s.radius as int, s.radius as int), spec_norm2(perp));
    if beta < 0 {
        None
    } else {
        let gamma = fx::spec_sqrt(fx::spec_div(beta, spec_norm2(ray.direction)));
        let inside = gamma >= alpha;
        let lambda = if inside {
            fx::spec_add(alpha, gamma)
        } else {
            fx::spec_sub(alpha, gamma)
        };
        if lambda <= 0 {
            None
        } else {
            let position = spec_at(ray, lambda);
            let outward = spec_vdivs(spec_vsub(position, s.center), s.radius as int);
            Some(
                Intersection {
                    position,
                    normal: if inside {
                        spec_vneg(outward)
                    } else {
                        outward
                    },
                    lambda: lambda as i64,
                    inside,
                },
            )
        }
    }
}

/// A ray whose direction points away from the sphere's center (their
/// inner product is nonpositive) can meet the sphere only from inside:
/// pointing away, it never strikes the outer face. (With the origin
/// strictly outside, a hit marked inside has a nonpositive distance in
/// exact arithmetic and is rejected; under rounding a near-tangent ray
/// may keep a vanishing hit, so only the facing side is claimed here.)
pub proof fn lemma_sphere_away_inside(s: Sphere, ray: Ray)
    requires
        spec_dot(spec_vsub(s.center, ray.origin), ray.direction) <= 0,
    ensures
        match spec_sphere_intersect(s, ray) {
            None => true,
            Some(h) => h.inside,
        },
{
    crate::vec::lemma_norm2_nonneg(ray.direction);
    let m2 = spec_norm2(ray.direction);
    let co = spec_vsub(s.center, ray.origin);
    fx::lemma_div_sign(spec_dot(co, ray.direction), m2);
    let alpha = spec_project(co, ray.direction);
    let perp = spec_vsub(spec_at(ray, alpha), s.center);
    let beta = fx::spec_sub(fx::spec_mul(s.radius as int, s.radius as int), spec_norm2(perp));
    if beta >= 0 {
        fx::lemma_div_sign(beta, m2);
        fx::lemma_sqrt_nonneg(fx::spec_div(beta, m2));
    }
}

impl Sphere {
    /// Creates a `Sphere` with radius `radius`, centered on `center`.
    pub fn new(center: V3, radius: Fx) -> (r: Sphere)
        ensures
            r.center == center,
            r.radius == radius,
    {
        Sphere { center, radius }
    }

    /// The nearest intersection with `ray`, if any.
    pub fn intersect(&self, ray: &Ray) -> (r: Option<Intersection>)
        ensures
            r == spec_sphere_intersect(*self, *ray),
    {
        let alpha: Fx = project(self.center.sub(ray.origin), ray.direction);
        let perp: V3 = ray.origin.add(ray.direction.scale(alpha)).sub(self.center);
        let beta: Fx = fx::sub(fx::mul(self.radius, self.radius), perp.norm2());

        if beta < 0 {
            return None;
        }

        let gamma: Fx = fx::sqrt(fx::div(beta, ray.direction.norm2()));
        let inside: bool = gamma >= alpha;
        let lambda: Fx = if inside {
            fx::add(alpha, gamma)
        } else {
            fx::sub(alpha, gamma)
        };

        if lambda <= 0 {
            return None;
        }

        let position: V3 = ray.origin.add(ray.direction.scale(lambda));
        let outward: V3 = position.sub(self.center).divs(self.radius);
        let normal: V3 = if inside {
            outward.neg()
        } else {
            outward
        };

        Some(Intersection { position, normal, lambda, inside })
    }
}

/// The projection of `x` onto `y`.
fn project(x: V3, y: V3) -> (r: Fx)
    ensures
        r == spec_project(x, y),
{
    fx::div(x.dot(y), y.norm2())
}

} // verus!
