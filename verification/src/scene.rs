//! The scene graph: transformed objects and nearest-hit resolution.
//!
//! An [`Object`] pairs a shape and a material with an affine placement and
//! its precomputed inverse; a [`Scene`] owns an insertion-ordered list of
//! objects plus a background radiance. Intersection transforms the ray into
//! object space, takes the nearest hit over all objects (a strict
//! comparison keeps the earliest on ties) and maps the winning hit back to
//! world space; occlusion short-circuits but is proved to agree with
//! intersection exactly.

use vstd::prelude::*;
use crate::affine::{spec_affine_inverse, spec_det, spec_mat_vec, spec_transpose, spec_transform_point, Affine};
use crate::geometry::{spec_intersect, spec_ray_transform, Geometry, Intersection, Ray};
use crate::lighting::{spec_shade, Bsdf, Material, Radiance};
use crate::vec::{spec_mag, spec_normalize, spec_vsub, V3};

verus! {

/// An object in the scene: a shape with a material, positioned by an
/// affine transform whose inverse is computed once at construction.
#[derive(Clone, Copy, Debug)]
pub struct Object {
    /// The object's shape, in object space.
    pub geometry: Geometry,
    /// The object's surface material.
    pub material: Material,
    /// The object-to-world map.
    pub transform: Affine,
    /// The world-to-object map: the exact fixed-point inverse of
    /// `transform`, established at construction.
    pub inv_transform: Affine,
}

/// What `Object::transform_intersection` returns: the position mapped
/// forward, the normal mapped by the inverse-transpose (correct under
/// nonuniform scale) and renormalized, and the distance recomputed in
/// world space from the original ray origin.
#[verifier::opaque]
pub open spec fn spec_transform_intersection(o: Object, ray: Ray, i: Intersection) -> Intersection {
    let position = spec_transform_point(o.transform, i.position);
    Intersection {
        position,
        normal: spec_normalize(spec_mat_vec(spec_transpose(o.inv_transform.linear), i.normal)),
        lambda: spec_mag(spec_vsub(position, ray.origin)) as i64,
        inside: i.inside,
    }
}

impl Object {
    /// Creates an `Object`, computing the inverse placement; a singular
    /// transform cannot be inverted and yields `None`.
    pub fn new(geometry: Geometry, material: Material, transform: Affine) -> (r: Option<Object>)
        ensures
            spec_det(transform.linear) == 0 ==> r is None,
            spec_det(transform.linear) != 0 ==> r == Some(
                Object {
                    geometry,
                    material,
                    transform,
                    inv_transform: spec_affine_inverse(transform),
                },
            ),
    {
        match transform.inverse() {
            None => None,
            Some(inv) => Some(Object { geometry, material, transform, inv_transform: inv }),
        }
    }

    /// The ray in object space.
    fn transform_ray(&self, ray: &Ray) -> (r: Ray)
        ensures
            r == spec_ray_transform(*ray, self.inv_transform),
    {
        ray.transform(&self.inv_transform)
    }

    /// An object-space intersection mapped back to world space.
    fn transform_intersection(&self, ray: &Ray, intersection: &Intersection) -> (r: Intersection)
        ensures
            r == spec_transform_intersection(*self, *ray, *intersection),
    {
        proof {
            reveal(crate::scene::spec_transform_intersection);
        }
        let position: V3 = self.transform.transform_point(intersection.position);
        let normal: V3 = self.inv_transform.linear.transpose().mul_vec(
            intersection.normal,
        ).normalize();
        let lambda: i64 = position.sub(ray.origin).mag();
        Intersection { position, normal, lambda, inside: intersection.inside }
    }
}

/// Whether an object occludes a ray: its shape, met in object space.
pub open spec fn spec_occludes(o: Object, ray: Ray) -> bool {
    spec_intersect(o.geometry, spec_ray_transform(ray, o.inv_transform)) is Some
}

/// The nearest object-space hit among the first `n` objects: the winning
/// object's index and its object-space intersection. A later hit wins only
/// by a strictly smaller distance, so exact ties keep the first object.
pub open spec fn spec_nearest(objects: Seq<Object>, ray: Ray, n: nat) -> Option<(int, Intersection)>
    decreases n,
{
    if n == 0 {
        None
    } else {
        let prev = spec_nearest(objects, ray, (n - 1) as nat);
        let candidate = spec_intersect(
            objects[n - 1].geometry,
            spec_ray_transform(ray, objects[n - 1].inv_transform),
        );
        match candidate {
            None => prev,
            Some(hit) => match prev {
                None => Some((n - 1, hit)),
                Some(p) => if hit.lambda < p.1.lambda {
                    Some((n - 1, hit))
                } else {
                    prev
                },
            },
        }
    }
}

/// A winning nearest hit really is a hit of its object, and a nearest hit
/// exists exactly when some object occludes the ray.
pub proof fn lemma_nearest_occlusion(objects: Seq<Object>, ray: Ray, n: nat)
    requires
        n <= objects.len(),
    ensures
        (spec_nearest(objects, ray, n) is Some) <==> exists|i: int|
            0 <= i < n && spec_occludes(objects[i], ray),
        spec_nearest(objects, ray, n) matches Some(p) ==> 0 <= p.0 < n && spec_intersect(
            objects[p.0].geometry,
            spec_ray_transform(ray, objects[p.0].inv_transform),
        ) == Some::<Intersection>(p.1),
    decreases n,
{
    if n > 0 {
        lemma_nearest_occlusion(objects, ray, (n - 1) as nat);
        if spec_occludes(objects[n - 1], ray) {
            assert(exists|i: int| 0 <= i < n && spec_occludes(objects[i], ray));
        }
        if exists|i: int| 0 <= i < n && spec_occludes(objects[i], ray) {
            let i = choose|i: int| 0 <= i < n && spec_occludes(objects[i], ray);
            if i < n - 1 {
                assert(exists|j: int| 0 <= j < n - 1 && spec_occludes(objects[j], ray));
            }
        }
    }
}

/// An intersection and the shaded appearance of the surface it hit.
pub struct ShadedIntersection {
    /// The world-space intersection.
    pub intersection: Intersection,
    /// The scattering behavior at the hit.
    pub bsdf: Bsdf,
}

/// A collection of objects plus a background radiance for rays that
/// escape.
pub struct Scene {
    /// The objects, in insertion order.
    pub objects: Vec<Object>,
    /// The radiance returned when no object is hit.
    pub background: Radiance,
}

impl Scene {
    /// Creates an empty `Scene` with the given background.
    pub fn new(background: Radiance) -> (s: Scene)
        ensures
            s.objects@ == Seq::<Object>::empty(),
            s.background == background,
    {
        Scene { objects: Vec::new(), background }
    }

    /// The background radiance.
    pub fn background(&self) -> (r: Radiance)
        ensures
            r == self.background,
    {
        self.background
    }

    /// Append an object; insertion order is kept.
    pub fn add(&mut self, object: Object)
        ensures
            final(self).objects@ == old(self).objects@.push(object),
            final(self).background == old(self).background,
    {
        self.objects.push(object)
    }

    /// The nearest hit across all objects, shaded and mapped back to world
    /// space, or `None` when every object misses.
    pub fn intersect(&self, ray: &Ray) -> (r: Option<ShadedIntersection>)
        ensures
            match spec_nearest(self.objects@, *ray, self.objects@.len()) {
                None => r is None,
                Some(p) => r matches Some(s) && s.intersection == spec_transform_intersection(
                    self.objects@[p.0],
                    *ray,
                    p.1,
                ) && s.bsdf.effects@ == spec_shade(self.objects@[p.0].material, p.1),
            },
    {
        let mut nearest: Option<(usize, Intersection)> = None;
        let mut idx: usize = 0;
        while idx < self.objects.len()
            invariant
                idx <= self.objects@.len(),
                match spec_nearest(self.objects@, *ray, idx as nat) {
                    None => nearest is None,
                    Some(p) => nearest matches Some(q) && q.0 as int == p.0 && q.1 == p.1
                        && 0 <= p.0 < idx,
                },
            decreases self.objects@.len() - idx,
        {
            let obj: &Object = &self.objects[idx];
            match obj.geometry.intersect(&obj.transform_ray(ray)) {
                None => {},
                Some(hit) => {
                    nearest = match nearest {
                        None => Some((idx, hit)),
                        Some((best_idx, best)) => {
                            if hit.lambda < best.lambda {
                                Some((idx, hit))
                            } else {
                                Some((best_idx, best))
                            }
                        },
                    };
                },
            }
            idx = idx + 1;
        }

        match nearest {
            None => None,
            Some((best_idx, best)) => {
                let obj: &Object = &self.objects[best_idx];
                let bsdf: Bsdf = obj.material.shade(&best);
                Some(
                    ShadedIntersection {
                        intersection: obj.transform_intersection(ray, &best),
                        bsdf,
                    },
                )
            },
        }
    }

    /// Whether any object occludes the ray; short-circuits on the first
    /// hit, and agrees exactly with `intersect` returning a hit.
    pub fn occlude(&self, ray: &Ray) -> (r: bool)
        ensures
            r == (spec_nearest(self.objects@, *ray, self.objects@.len()) is Some),
            r == exists|i: int| 0 <= i < self.objects@.len() && spec_occludes(self.objects@[i], *ray),
    {
        let mut idx: usize = 0;
        while idx < self.objects.len()
            invariant
                idx <= self.objects@.len(),
                forall|i: int| 0 <= i < idx ==> !spec_occludes(self.objects@[i], *ray),
            decreases self.objects@.len() - idx,
        {
            let obj: &Object = &self.objects[idx];
            if obj.geometry.occlude(&obj.transform_ray(ray)) {
                proof {
                    lemma_nearest_occlusion(self.objects@, *ray, self.objects@.len());
                    assert(spec_occludes(self.objects@[idx as int], *ray));
                    assert(exists|i: int|
                        0 <= i < self.objects@.len() && spec_occludes(self.objects@[i], *ray));
                }
                return true;
            }
            idx = idx + 1;
        }
        proof {
            lemma_nearest_occlusion(self.objects@, *ray, self.objects@.len());
        }
        false
    }
}

} // verus!
