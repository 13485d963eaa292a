//! A Whitted-style renderer lit by a single spherical light.

use vstd::prelude::*;
use crate::camera::{Camera, Resolution, Target};
use crate::fx;
use crate::fx::Fx;
use crate::geometry::{Intersection, Ray};
use crate::lighting::{spec_eval, spec_rad_add, spec_rad_mul, spec_rad_scale, spec_shade, Bsdf, Effect, Radiance, INV_TWO_PI};
use crate::render::{RenderError, Renderer};
use crate::scene::{spec_nearest, spec_transform_intersection, Scene};
use crate::vec::{spec_dot, spec_mag, spec_normalize, spec_vscale, spec_vsub, V3};

verus! {

/// A spherical light source.
#[derive(Clone, Copy, Debug, PartialEq, Eq, Structural)]
pub struct Light {
    /// The light's center.
    pub position: V3,
    /// The light's emitted radiance.
    pub emission: Radiance,
    /// The light's radius.
    pub radius: Fx,
}

/// A deterministic single-bounce renderer.
#[derive(Clone, Copy, Debug, PartialEq, Eq, Structural)]
pub struct RayTracer {
    /// The single light of the scene.
    pub light: Light,
}

/// The lit contribution of one effect: emission weighted by the density
/// toward the light; reflection terms weighted by the light's coverage
/// and the density at the normal (diffuse) or mirror (specular) cosine,
/// and only when that cosine is positive; refractions contribute nothing.
pub open spec fn spec_phong_term(
    light: Light,
    e: Effect,
    cos_n: int,
    cos_r: int,
    coverage: int,
) -> Radiance {
    match e {
        Effect::Emission(em, pdf) => spec_rad_scale(em, spec_eval(pdf, cos_n)),
        Effect::DiffuseReflection(alb, pdf) => if cos_n > 0 {
            spec_rad_scale(
                spec_rad_mul(
                    spec_rad_scale(light.emission, fx::spec_mul(cos_n, coverage)),
                    alb,
                ),
                spec_eval(pdf, cos_n),
            )
        } else {
            Radiance { r: 0i64, g: 0i64, b: 0i64 }
        },
        Effect::SpecularReflection(alb, pdf) => if cos_r > 0 {
            spec_rad_scale(
                spec_rad_mul(
                    spec_rad_scale(light.emission, fx::spec_mul(cos_n, coverage)),
                    alb,
                ),
                spec_eval(pdf, cos_r),
            )
        } else {
            Radiance { r: 0i64, g: 0i64, b: 0i64 }
        },
        _ => Radiance { r: 0i64, g: 0i64, b: 0i64 },
    }
}

/// The summed lit contribution of the first `n` effects.
pub open spec fn spec_phong_sum(
    light: Light,
    effects: Seq<Effect>,
    cos_n: int,
    cos_r: int,
    coverage: int,
    n: nat,
) -> Radiance
    decreases n,
{
    if n == 0 {
        Radiance { r: 0i64, g: 0i64, b: 0i64 }
    } else {
        spec_rad_add(
            spec_phong_sum(light, effects, cos_n, cos_r, coverage, (n - 1) as nat),
            spec_phong_term(light, effects[n - 1], cos_n, cos_r, coverage),
        )
    }
}

/// What `RayTracer` computes at a hit: the light direction and its
/// angular coverage, the mirror direction of the view ray, the cosines of
/// the light against normal and mirror (kept within the unit range), and
/// the sum of the per-effect terms.
#[verifier::opaque]
pub open spec fn spec_phong(light: Light, ray: Ray, i: Intersection, effects: Seq<Effect>) -> Radiance {
    let light_to = spec_vsub(light.position, i.position);
    let incidence = spec_normalize(light_to);
    let coverage = fx::spec_mul(
        fx::spec_atan(fx::spec_div(light.radius as int, spec_mag(light_to))),
        INV_TWO_PI as int,
    );
    let proj = spec_vscale(i.normal, spec_dot(i.normal, ray.direction));
    let reflected = spec_normalize(spec_vsub(ray.direction, spec_vscale(proj, fx::TWO as int)));
    let cos_n = fx::spec_clamp(spec_dot(incidence, i.normal), fx::NEG_ONE as int, fx::ONE as int);
    let cos_r = fx::spec_clamp(spec_dot(incidence, reflected), fx::NEG_ONE as int, fx::ONE as int);
    spec_phong_sum(light, effects, cos_n, cos_r, coverage, effects.len())
}

impl RayTracer {
    /// Creates a `RayTracer` lit by the given light.
    pub fn new(light: Light) -> (t: RayTracer)
        ensures
            t.light == light,
    {
        RayTracer { light }
    }

    /// The lit radiance at one shaded intersection.
    fn phong(&mut self, ray: &Ray, intersection: &Intersection, bsdf: &Bsdf) -> (r: Radiance)
        ensures
            *final(self) == *old(self),
            r == spec_phong(old(self).light, *ray, *intersection, bsdf.effects@),
    {
        proof {
            reveal(crate::render::ray::spec_phong);
        }
        let light_to: V3 = self.light.position.sub(intersection.position);
        let incidence: V3 = light_to.normalize();
        let coverage: Fx = fx::mul(
            fx::atan(fx::div(self.light.radius, light_to.mag())),
            INV_TWO_PI,
        );
        let proj: V3 = intersection.normal.scale(intersection.normal.dot(ray.direction));
        let reflected: V3 = ray.direction.sub(proj.scale(fx::TWO)).normalize();
        let cos_n: Fx = fx::clamp(incidence.dot(intersection.normal), fx::NEG_ONE, fx::ONE);
        let cos_r: Fx = fx::clamp(incidence.dot(reflected), fx::NEG_ONE, fx::ONE);

        let ghost gl: Light = self.light;
        let mut radiance: Radiance = Radiance::none();
        let mut k: usize = 0;
        while k < bsdf.effects.len()
            invariant
                k <= bsdf.effects@.len(),
                self.light == gl,
                -fx::ONE <= cos_n <= fx::ONE,
                -fx::ONE <= cos_r <= fx::ONE,
                radiance == spec_phong_sum(
                    gl,
                    bsdf.effects@,
                    cos_n as int,
                    cos_r as int,
                    coverage as int,
                    k as nat,
                ),
            decreases bsdf.effects@.len() - k,
        {
            let effect: Effect = bsdf.effects[k];
            match effect {
                Effect::Emission(emission, pdf) => {
                    radiance = radiance.add(emission.scale(pdf.eval(cos_n)));
                },
                Effect::DiffuseReflection(albedo, pdf) => {
                    if cos_n > 0 {
                        radiance = radiance.add(
                            self.light.emission.scale(fx::mul(cos_n, coverage)).mul(albedo).scale(
                                pdf.eval(cos_n),
                            ),
                        );
                    } else {
                        radiance = radiance.add(Radiance::none());
                    }
                },
                Effect::SpecularReflection(albedo, pdf) => {
                    if cos_r > 0 {
                        radiance = radiance.add(
                            self.light.emission.scale(fx::mul(cos_n, coverage)).mul(albedo).scale(
                                pdf.eval(cos_r),
                            ),
                        );
                    } else {
                        radiance = radiance.add(Radiance::none());
                    }
                },
                Effect::DiffuseRefraction(_, _, _) => {
                    radiance = radiance.add(Radiance::none());
                },
                Effect::SpecularRefraction(_, _, _) => {
                    radiance = radiance.add(Radiance::none());
                },
            }
            k = k + 1;
        }
        radiance
    }
}

impl Renderer for RayTracer {
    /// Always ready.
    open spec fn wf(&self) -> bool {
        true
    }

    /// The background on a miss, the single-bounce lit radiance of the
    /// nearest hit otherwise.
    fn render<C: Camera>(
        &mut self,
        scene: &Scene,
        camera: &C,
        resolution: Resolution,
        target: Target,
    ) -> (res: Result<Radiance, RenderError>)
        ensures
            res is Ok,
            match spec_nearest(
                scene.objects@,
                camera.spec_primary(resolution, target),
                scene.objects@.len(),
            ) {
                None => res == Ok::<Radiance, RenderError>(scene.background),
                Some(p) => res == Ok::<Radiance, RenderError>(
                    spec_phong(
                        old(self).light,
                        camera.spec_primary(resolution, target),
                        spec_transform_intersection(
                            scene.objects@[p.0],
                            camera.spec_primary(resolution, target),
                            p.1,
                        ),
                        spec_shade(scene.objects@[p.0].material, p.1),
                    ),
                ),
            },
    {
        let ray = camera.primary(resolution, target);
        match scene.intersect(&ray) {
            None => Ok(scene.background()),
            Some(i) => Ok(self.phong(&ray, &i.intersection, &i.bsdf)),
        }
    }
}

} // verus!
