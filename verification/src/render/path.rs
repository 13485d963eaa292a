//! The recursive Monte-Carlo path-tracing integrator.
//!
//! `trace` resolves the nearest hit, then accumulates one term per effect
//! of the surface's BSDF: emission directly, reflective and refractive
//! effects by importance-sampling a direction, recursing along it, and
//! folding the result in with the throughput factor and the solid-angle
//! normalization. Recursion stops at a depth limit or when the accumulated
//! contribution's luma falls below a cutoff. The closed material set never
//! demands the unsupported specular refraction, so tracing is proved to
//! always return a value.

use vstd::prelude::*;
use crate::camera::{Camera, Resolution, Target};
use crate::fx;
use crate::fx::Fx;
use crate::geometry::{Intersection, Ray};
use crate::lighting::{
    lemma_shade_no_refraction,
    spec_alb_scale,
    spec_eval,
    spec_luma3,
    spec_pdf,
    spec_rad_add,
    spec_rad_scale,
    spec_shade,
    Albedo,
    Bsdf,
    Distribution,
    Effect,
    Radiance,
    TWO_PI,
    UNIT_TOL,
};
use crate::montecarlo::{
    lemma_accumulate_push,
    spec_accumulate,
    spec_est_value,
    spec_sample_add,
    spec_sample_mul,
    Estimator,
    Sample,
};
use crate::random::Rand;
use crate::render::{RenderError, Renderer};
use crate::scene::{spec_nearest, spec_transform_intersection, Scene};
use crate::vec::{spec_cross, spec_dot, spec_norm2, spec_normalize, spec_vadd, spec_vneg, spec_vscale, spec_vsub, V3};

verus! {

/// How far a secondary ray starts off its surface, avoiding an immediate
/// self-intersection.
pub const SELF_HIT_EPS: i64 = 7;

/// A stochastic, recursive estimator of the rendering equation.
pub struct PathTracer {
    /// The random source for importance sampling.
    pub rng: Rand,
    /// The minimum accumulated luma below which recursion is pruned.
    pub contribution_limit: Fx,
    /// The maximum recursion depth.
    pub depth_limit: u8,
    /// How many primary samples are averaged per pixel.
    pub samples: u32,
}

/// What `secondary` returns: an unbounded ray nudged off the surface along
/// its direction.
#[verifier::opaque]
pub open spec fn spec_secondary(origin: V3, direction: V3) -> Ray {
    Ray {
        origin: spec_vadd(origin, spec_vscale(direction, SELF_HIT_EPS as int)),
        direction: spec_normalize(direction),
        length: fx::MAX as i64,
    }
}

/// A secondary ray leaving a surface point.
fn secondary(origin: V3, direction: V3) -> (r: Ray)
    ensures
        r == spec_secondary(origin, direction),
{
    proof {
        reveal(crate::render::path::spec_secondary);
    }
    let o: V3 = origin.add(direction.scale(SELF_HIT_EPS));
    Ray { origin: o, direction: direction.normalize(), length: fx::MAX }
}

/// What `make_tangent` returns: a stable perpendicular, built from
/// whichever of the normal's first two components has the larger
/// magnitude.
#[verifier::opaque]
pub open spec fn spec_make_tangent(n: V3) -> V3 {
    if fx::spec_abs(n.x as int) > fx::spec_abs(n.y as int) {
        spec_normalize(V3 { x: n.z, y: 0i64, z: fx::spec_neg(n.x as int) as i64 })
    } else {
        spec_normalize(V3 { x: 0i64, y: n.z, z: fx::spec_neg(n.y as int) as i64 })
    }
}

/// A vector perpendicular to the given normal.
fn make_tangent(normal: V3) -> (r: V3)
    ensures
        r == spec_make_tangent(normal),
{
    proof {
        reveal(crate::render::path::spec_make_tangent);
    }
    if fx::abs(normal.x) > fx::abs(normal.y) {
        V3 { x: normal.z, y: 0, z: fx::neg(normal.x) }.normalize()
    } else {
        V3 { x: 0, y: normal.z, z: fx::neg(normal.y) }.normalize()
    }
}

/// What `align_with` returns: the local-frame vector rotated into the
/// frame whose `+z` axis is the given normal, via tangent and bitangent.
#[verifier::opaque]
pub open spec fn spec_align_with(normal: V3, vector: V3) -> V3 {
    let tangent = spec_make_tangent(normal);
    let bitangent = spec_cross(normal, tangent);
    spec_vadd(
        spec_vadd(
            spec_vscale(tangent, vector.x as int),
            spec_vscale(bitangent, vector.y as int),
        ),
        spec_vscale(normal, vector.z as int),
    )
}

/// Rotate a local-hemisphere vector into the frame of a world normal.
fn align_with(normal: V3, vector: V3) -> (r: V3)
    ensures
        r == spec_align_with(normal, vector),
{
    proof {
        reveal(crate::render::path::spec_align_with);
    }
    let tangent: V3 = make_tangent(normal);
    let bitangent: V3 = normal.cross(tangent);
    tangent.scale(vector.x).add(bitangent.scale(vector.y)).add(normal.scale(vector.z))
}

/// What `reflect` returns: the incoming direction mirrored about the
/// normal and renormalized.
#[verifier::opaque]
pub open spec fn spec_reflect(direction: V3, normal: V3) -> V3 {
    let proj = spec_vscale(normal, spec_dot(normal, direction));
    spec_normalize(spec_vsub(direction, spec_vscale(proj, fx::TWO as int)))
}

/// The mirror reflection of a direction about a surface normal.
fn reflect(direction: V3, normal: V3) -> (r: V3)
    ensures
        r == spec_reflect(direction, normal),
{
    proof {
        reveal(crate::render::path::spec_reflect);
    }
    let proj: V3 = normal.scale(normal.dot(direction));
    direction.sub(proj.scale(fx::TWO)).normalize()
}

/// The viewing cosine at a hit: the cosine between the direction back
/// toward the ray origin and the surface normal, kept within the unit
/// range even against saturated geometry.
pub open spec fn spec_cos_view(ray: Ray, normal: V3) -> int {
    fx::spec_clamp(
        fx::spec_neg(spec_dot(ray.direction, normal)),
        fx::NEG_ONE as int,
        fx::ONE as int,
    )
}

/// Whether every effect of a surface is pure emission.
pub open spec fn spec_all_emission(effects: Seq<Effect>) -> bool {
    forall|i: int| 0 <= i < effects.len() ==> effects[i] is Emission
}

/// The emission term of one effect at a viewing cosine.
pub open spec fn spec_emission_term(e: Effect, cos_view: int) -> Radiance {
    match e {
        Effect::Emission(em, dist) => spec_rad_scale(em, spec_eval(dist, cos_view)),
        _ => Radiance { r: 0i64, g: 0i64, b: 0i64 },
    }
}

/// The summed emission of the first `n` effects at a viewing cosine.
pub open spec fn spec_emission_sum(effects: Seq<Effect>, cos_view: int, n: nat) -> Radiance
    decreases n,
{
    if n == 0 {
        Radiance { r: 0i64, g: 0i64, b: 0i64 }
    } else {
        spec_rad_add(
            spec_emission_sum(effects, cos_view, (n - 1) as nat),
            spec_emission_term(effects[n - 1], cos_view),
        )
    }
}

/// Whether the integrator prunes the path at this depth and accumulated
/// contribution.
pub open spec fn spec_pruned(t: PathTracer, contribution: Albedo, depth: u8) -> bool {
    depth >= t.depth_limit || spec_luma3(
        contribution.r as int,
        contribution.g as int,
        contribution.b as int,
    ) < t.contribution_limit
}

/// The throughput factor of one sampled scattering term: the drawn
/// axis-cosine times the surface color times the density at the viewing
/// cosine.
pub open spec fn spec_throughput(albedo: Albedo, dist: Distribution, cos_view: int, z: int) -> Albedo {
    spec_alb_scale(spec_alb_scale(albedo, z), spec_eval(dist, cos_view))
}

/// The throughput factor, executable and exact.
pub fn throughput(albedo: Albedo, dist: Distribution, cos_view: Fx, z: Fx) -> (r: Albedo)
    requires
        -fx::ONE <= cos_view <= fx::ONE,
    ensures
        r == spec_throughput(albedo, dist, cos_view as int, z as int),
{
    albedo.scale(z).scale(dist.eval(cos_view))
}

/// How one sampled scattering term enters the running sample: the
/// radiance brought back by the recursion is absorbed by the throughput,
/// and the probability picks up the draw's density times the hemisphere's
/// solid-angle normalization.
pub open spec fn spec_fold_scatter(prev: Sample, factor: Albedo, pdf: int, inner: Sample) -> Sample {
    spec_sample_add(prev, spec_sample_mul(inner, factor, fx::spec_mul(pdf, TWO_PI as int)))
}

/// Fold one sampled scattering term into the running sample.
pub fn fold_scatter(prev: Sample, factor: Albedo, pdf: Fx, inner: Sample) -> (r: Sample)
    ensures
        r == spec_fold_scatter(prev, factor, pdf as int, inner),
{
    prev.add(inner.mul(factor, fx::mul(pdf, TWO_PI)))
}

/// The axis a scattering effect is centered on: the surface normal for
/// diffuse reflection, the mirrored view direction for specular
/// reflection, and the inverted normal for refraction.
pub open spec fn spec_scatter_axis(e: Effect, view: V3, normal: V3) -> V3 {
    match e {
        Effect::SpecularReflection(_, _) => spec_reflect(view, normal),
        Effect::DiffuseRefraction(_, _, _) => spec_vneg(normal),
        Effect::SpecularRefraction(_, _, _) => spec_vneg(normal),
        _ => normal,
    }
}

/// The axis a scattering effect is centered on.
pub fn scatter_axis(e: &Effect, view: V3, normal: V3) -> (r: V3)
    ensures
        r == spec_scatter_axis(*e, view, normal),
{
    match e {
        Effect::SpecularReflection(_, _) => reflect(view, normal),
        Effect::DiffuseRefraction(_, _, _) => normal.neg(),
        Effect::SpecularRefraction(_, _, _) => normal.neg(),
        _ => normal,
    }
}

/// One hemisphere draw consistent with `Distribution::sample`'s contract:
/// an axis-cosine in (0, 1], a direction of unit length within tolerance,
/// and exactly the distribution's density at that cosine.
pub open spec fn spec_draw_of(dist: Distribution, d: (V3, Fx)) -> bool {
    &&& 0 < d.0.z <= fx::ONE
    &&& d.1 == spec_pdf(dist, d.0.z as int)
    &&& fx::ONE - UNIT_TOL <= spec_norm2(d.0) <= fx::ONE + UNIT_TOL
}

/// What the sampler guarantees of the draw used for an effect (nothing is
/// drawn for pure emission).
pub open spec fn spec_valid_draw(e: Effect, d: (V3, Fx)) -> bool {
    match e {
        Effect::Emission(_, _) => true,
        Effect::DiffuseReflection(_, dist) => spec_draw_of(dist, d),
        Effect::SpecularReflection(_, dist) => spec_draw_of(dist, d),
        Effect::DiffuseRefraction(_, _, dist) => spec_draw_of(dist, d),
        Effect::SpecularRefraction(_, _, dist) => spec_draw_of(dist, d),
    }
}

/// The sample after integrating the first `n` effects of a surface, given
/// the hemisphere draw and the recursive sample used at each scattering
/// position: emission enters directly, scattering folds its recursion
/// result through the drawn throughput.
pub open spec fn spec_integrate(
    effects: Seq<Effect>,
    cos_view: int,
    draws: Seq<(V3, Fx)>,
    inners: Seq<Sample>,
    n: nat,
) -> Sample
    decreases n,
{
    if n == 0 {
        Sample { value: Radiance { r: 0i64, g: 0i64, b: 0i64 }, probability: fx::ONE }
    } else {
        let prev = spec_integrate(effects, cos_view, draws, inners, (n - 1) as nat);
        match effects[n - 1] {
            Effect::Emission(em, dist) => spec_sample_add(
                prev,
                Sample { value: spec_rad_scale(em, spec_eval(dist, cos_view)), probability: fx::ONE },
            ),
            Effect::DiffuseReflection(alb, dist) => spec_fold_scatter(
                prev,
                spec_throughput(alb, dist, cos_view, draws[n - 1].0.z as int),
                draws[n - 1].1 as int,
                inners[n - 1],
            ),
            Effect::SpecularReflection(alb, dist) => spec_fold_scatter(
                prev,
                spec_throughput(alb, dist, cos_view, draws[n - 1].0.z as int),
                draws[n - 1].1 as int,
                inners[n - 1],
            ),
            Effect::DiffuseRefraction(alb, _, dist) => spec_fold_scatter(
                prev,
                spec_throughput(alb, dist, cos_view, draws[n - 1].0.z as int),
                draws[n - 1].1 as int,
                inners[n - 1],
            ),
            Effect::SpecularRefraction(_, _, _) => prev,
        }
    }
}

/// Integration reads only the first `n` entries of the draw and recursion
/// sequences, so appending more leaves it unchanged.
pub proof fn lemma_integrate_push(
    effects: Seq<Effect>,
    cos_view: int,
    draws: Seq<(V3, Fx)>,
    inners: Seq<Sample>,
    d: (V3, Fx),
    s: Sample,
    n: nat,
)
    requires
        n <= draws.len(),
        n <= inners.len(),
    ensures
        spec_integrate(effects, cos_view, draws.push(d), inners.push(s), n) == spec_integrate(
            effects,
            cos_view,
            draws,
            inners,
            n,
        ),
    decreases n,
{
    if n > 0 {
        lemma_integrate_push(effects, cos_view, draws, inners, d, s, (n - 1) as nat);
    }
}

/// The conditions under which rendering provably returns the bare
/// background: an empty scene, at least one level of recursion allowed, a
/// cutoff that does not prune a fresh path, and a background that the
/// sample budget cannot overflow.
pub open spec fn spec_background_only(t: PathTracer, scene: Scene) -> bool {
    &&& scene.objects@.len() == 0
    &&& t.depth_limit > 0
    &&& t.contribution_limit <= spec_luma3(fx::ONE as int, fx::ONE as int, fx::ONE as int)
    &&& fx::MIN <= t.samples * scene.background.r <= fx::MAX
    &&& fx::MIN <= t.samples * scene.background.g <= fx::MAX
    &&& fx::MIN <= t.samples * scene.background.b <= fx::MAX
}

impl PathTracer {
    /// Creates a `PathTracer` over a random source, with a contribution
    /// cutoff, a recursion depth limit and a per-pixel sample count.
    pub fn new(rng: Rand, contribution_limit: Fx, depth_limit: u8, samples: u32) -> (t: PathTracer)
        ensures
            t.contribution_limit == contribution_limit,
            t.depth_limit == depth_limit,
            t.samples == samples,
    {
        PathTracer { rng, contribution_limit, depth_limit, samples }
    }

    /// Estimate the radiance arriving along `ray`. The recursion stops at
    /// the depth limit or when the accumulated `contribution`'s luma falls
    /// below the cutoff (a zero-radiance certain sample); a miss returns
    /// the background as a certain sample; on a hit every effect of the
    /// shaded BSDF contributes one term, sampling a secondary direction
    /// and recursing for the non-emissive ones. Tracing never fails for
    /// the closed material set; a hit whose surface only emits
    /// contributes exactly its summed emission with probability one; and
    /// every hit's result is the per-effect integration fold of some
    /// hemisphere draws — each meeting the sampler's contract — with the
    /// samples the recursion brought back.
    pub fn trace(&mut self, scene: &Scene, ray: &Ray, contribution: Albedo, depth: u8) -> (res:
        Result<Sample, RenderError>)
        ensures
            final(self).contribution_limit == old(self).contribution_limit,
            final(self).depth_limit == old(self).depth_limit,
            final(self).samples == old(self).samples,
            res is Ok,
            spec_pruned(*old(self), contribution, depth) ==> res == Ok::<Sample, RenderError>(
                Sample { value: Radiance { r: 0i64, g: 0i64, b: 0i64 }, probability: fx::ONE },
            ),
            !spec_pruned(*old(self), contribution, depth) && spec_nearest(
                scene.objects@,
                *ray,
                scene.objects@.len(),
            ) is None ==> res == Ok::<Sample, RenderError>(
                Sample { value: scene.background, probability: fx::ONE },
            ),
            !spec_pruned(*old(self), contribution, depth) ==> (spec_nearest(
                scene.objects@,
                *ray,
                scene.objects@.len(),
            ) matches Some(p) ==> (spec_all_emission(spec_shade(scene.objects@[p.0].material, p.1))
                ==> res == Ok::<Sample, RenderError>(
                Sample {
                    value: spec_emission_sum(
                        spec_shade(scene.objects@[p.0].material, p.1),
                        spec_cos_view(
                            *ray,
                            spec_transform_intersection(scene.objects@[p.0], *ray, p.1).normal,
                        ),
                        spec_shade(scene.objects@[p.0].material, p.1).len(),
                    ),
                    probability: fx::ONE,
                },
            ))),
            !spec_pruned(*old(self), contribution, depth) ==> (spec_nearest(
                scene.objects@,
                *ray,
                scene.objects@.len(),
            ) matches Some(p) ==> (res matches Ok(s) && exists|draws: Seq<(V3, Fx)>, inners: Seq<Sample>|
                {
                    &&& draws.len() == spec_shade(scene.objects@[p.0].material, p.1).len()
                    &&& inners.len() == spec_shade(scene.objects@[p.0].material, p.1).len()
                    &&& (forall|j: int|
                        0 <= j < draws.len() ==> spec_valid_draw(
                            spec_shade(scene.objects@[p.0].material, p.1)[j],
                            #[trigger] draws[j],
                        ))
                    &&& s == spec_integrate(
                        spec_shade(scene.objects@[p.0].material, p.1),
                        spec_cos_view(
                            *ray,
                            spec_transform_intersection(scene.objects@[p.0], *ray, p.1).normal,
                        ),
                        draws,
                        inners,
                        spec_shade(scene.objects@[p.0].material, p.1).len(),
                    )
                })),
        decreases old(self).depth_limit - depth,
    {
        if depth >= self.depth_limit || contribution.luma_factor() < self.contribution_limit {
            return Ok(Sample::from(Radiance::none()));
        }

        match scene.intersect(ray) {
            None => Ok(Sample::from(scene.background())),
            Some(shaded) => {
                let ghost best: (int, Intersection) = spec_nearest(
                    scene.objects@,
                    *ray,
                    scene.objects@.len(),
                )->0;
                let intersection: Intersection = shaded.intersection;
                let bsdf: Bsdf = shaded.bsdf;
                let cos_view: Fx = fx::clamp(
                    fx::neg(ray.direction.dot(intersection.normal)),
                    fx::NEG_ONE,
                    fx::ONE,
                );
                proof {
                    lemma_shade_no_refraction(scene.objects@[best.0].material, best.1);
                }

                let mut sample: Sample = Sample::from(Radiance::none());
                let ghost mut draws: Seq<(V3, Fx)> = Seq::empty();
                let ghost mut inners: Seq<Sample> = Seq::empty();
                let mut k: usize = 0;
                while k < bsdf.effects.len()
                    invariant
                        k <= bsdf.effects@.len(),
                        spec_nearest(scene.objects@, *ray, scene.objects@.len()) == Some(best),
                        bsdf.effects@ == spec_shade(scene.objects@[best.0].material, best.1),
                        intersection == spec_transform_intersection(
                            scene.objects@[best.0],
                            *ray,
                            best.1,
                        ),
                        self.contribution_limit == old(self).contribution_limit,
                        self.depth_limit == old(self).depth_limit,
                        self.samples == old(self).samples,
                        depth < self.depth_limit,
                        -fx::ONE <= cos_view <= fx::ONE,
                        cos_view as int == spec_cos_view(*ray, intersection.normal),
                        forall|j: int|
                            0 <= j < bsdf.effects@.len() ==> !(#[trigger] bsdf.effects@[j]
                                is SpecularRefraction),
                        spec_all_emission(bsdf.effects@) ==> sample == (Sample {
                            value: spec_emission_sum(bsdf.effects@, cos_view as int, k as nat),
                            probability: fx::ONE,
                        }),
                        draws.len() == k,
                        inners.len() == k,
                        forall|j: int|
                            0 <= j < k ==> spec_valid_draw(
                                bsdf.effects@[j],
                                #[trigger] draws[j],
                            ),
                        sample == spec_integrate(
                            bsdf.effects@,
                            cos_view as int,
                            draws,
                            inners,
                            k as nat,
                        ),
                    decreases bsdf.effects@.len() - k,
                {
                    let effect: Effect = bsdf.effects[k];
                    match effect {
                        Effect::Emission(emission, dist) => {
                            sample = sample.add(Sample::from(emission.scale(dist.eval(cos_view))));
                            proof {
                                lemma_integrate_push(
                                    bsdf.effects@,
                                    cos_view as int,
                                    draws,
                                    inners,
                                    (V3 { x: 0i64, y: 0i64, z: fx::ONE }, 0i64),
                                    Sample {
                                        value: Radiance { r: 0i64, g: 0i64, b: 0i64 },
                                        probability: fx::ONE,
                                    },
                                    k as nat,
                                );
                                draws = draws.push((V3 { x: 0i64, y: 0i64, z: fx::ONE }, 0i64));
                                inners = inners.push(
                                    Sample {
                                        value: Radiance { r: 0i64, g: 0i64, b: 0i64 },
                                        probability: fx::ONE,
                                    },
                                );
                            }
                        },
                        Effect::DiffuseReflection(albedo, dist)
                        | Effect::SpecularReflection(albedo, dist)
                        | Effect::DiffuseRefraction(albedo, _, dist) => {
                            let drawn: (V3, Fx) = dist.sample(&mut self.rng);
                            let factor: Albedo = throughput(albedo, dist, cos_view, drawn.0.z);
                            let axis: V3 = scatter_axis(&effect, ray.direction, intersection.normal);
                            let incidence: V3 = align_with(axis, drawn.0);
                            let sec: Ray = secondary(intersection.position, incidence);
                            let inner: Sample = match self.trace(
                                scene,
                                &sec,
                                contribution.mul(factor),
                                depth + 1,
                            ) {
                                Ok(s) => s,
                                // The recursive call is proved to succeed,
                                // so this arm is unreachable.
                                Err(e) => {
                                    proof {
                                        assert(false);
                                    }
                                    return Err(e);
                                },
                            };
                            sample = fold_scatter(sample, factor, drawn.1, inner);
                            proof {
                                lemma_integrate_push(
                                    bsdf.effects@,
                                    cos_view as int,
                                    draws,
                                    inners,
                                    drawn,
                                    inner,
                                    k as nat,
                                );
                                draws = draws.push(drawn);
                                inners = inners.push(inner);
                            }
                        },
                        Effect::SpecularRefraction(_, _, _) => {
                            // No material of the closed set produces this
                            // effect, which keeps the error unreachable.
                            proof {
                                assert(false);
                            }
                            return Err(RenderError::UnsupportedEffect);
                        },
                    }
                    k = k + 1;
                }
                proof {
                    assert(exists|dd: Seq<(V3, Fx)>, ii: Seq<Sample>|
                        {
                            &&& dd.len() == bsdf.effects@.len()
                            &&& ii.len() == bsdf.effects@.len()
                            &&& (forall|j: int|
                                0 <= j < dd.len() ==> spec_valid_draw(
                                    bsdf.effects@[j],
                                    #[trigger] dd[j],
                                ))
                            &&& sample == spec_integrate(
                                bsdf.effects@,
                                cos_view as int,
                                dd,
                                ii,
                                bsdf.effects@.len(),
                            )
                        }) by {
                        assert(draws.len() == bsdf.effects@.len() && inners.len()
                            == bsdf.effects@.len() && (forall|j: int|
                            0 <= j < draws.len() ==> spec_valid_draw(
                                bsdf.effects@[j],
                                #[trigger] draws[j],
                            )) && sample == spec_integrate(
                            bsdf.effects@,
                            cos_view as int,
                            draws,
                            inners,
                            bsdf.effects@.len(),
                        ));
                    }
                }
                Ok(sample)
            },
        }
    }
}

impl Renderer for PathTracer {
    /// Ready when it has a positive sample budget.
    open spec fn wf(&self) -> bool {
        self.samples > 0
    }

    /// Draw `samples` independent primary rays through the camera, trace
    /// each, and reduce to the unbiased mean: the result is always the
    /// estimator's mean of `samples` accumulated trace results, only the
    /// random source changes, a render never fails for the closed
    /// material set, and over an empty scene it returns exactly the
    /// configured background.
    fn render<C: Camera>(
        &mut self,
        scene: &Scene,
        camera: &C,
        resolution: Resolution,
        target: Target,
    ) -> (res: Result<Radiance, RenderError>)
        ensures
            final(self).contribution_limit == old(self).contribution_limit,
            final(self).depth_limit == old(self).depth_limit,
            final(self).samples == old(self).samples,
            res is Ok,
            spec_background_only(*old(self), *scene) ==> res == Ok::<Radiance, RenderError>(
                scene.background,
            ),
            res matches Ok(v) ==> exists|ss: Seq<Sample>|
                ss.len() == old(self).samples && v == spec_est_value(
                    spec_accumulate(ss, old(self).samples as nat),
                ),
    {
        let ghost bg: Radiance = scene.background;
        let ghost ns: u32 = self.samples;
        let ghost mut ss: Seq<Sample> = Seq::empty();
        let mut estimate: Estimator = Estimator::new();
        let mut i: u32 = 0;
        while i < self.samples
            invariant
                i <= self.samples,
                estimate.n == i,
                self.samples == old(self).samples,
                self.depth_limit == old(self).depth_limit,
                self.contribution_limit == old(self).contribution_limit,
                old(self).samples > 0,
                bg == scene.background,
                ns == old(self).samples,
                camera.wf(),
                ss.len() == i,
                estimate == spec_accumulate(ss, i as nat),
                spec_background_only(*old(self), *scene) ==> estimate.value == (Radiance {
                    r: (i * bg.r) as i64,
                    g: (i * bg.g) as i64,
                    b: (i * bg.b) as i64,
                }),
            decreases self.samples - i,
        {
            let pray: Ray = camera.primary(resolution, target);
            let s: Sample = match self.trace(scene, &pray, Albedo::white(), 0) {
                Ok(s) => s,
                // Tracing is proved to succeed, so this arm is unreachable.
                Err(e) => {
                    proof {
                        assert(false);
                    }
                    return Err(e);
                },
            };
            proof {
                if spec_background_only(*old(self), *scene) {
                    assert(fx::MIN <= bg.r <= fx::MAX && fx::MIN <= bg.g <= fx::MAX && fx::MIN
                        <= bg.b <= fx::MAX) by (nonlinear_arith)
                        requires
                            1 <= ns,
                            fx::MIN <= ns * bg.r,
                            fx::MIN <= ns * bg.g,
                            fx::MIN <= ns * bg.b,
                            i64::MIN <= bg.r <= i64::MAX,
                            i64::MIN <= bg.g <= i64::MAX,
                            i64::MIN <= bg.b <= i64::MAX;
                    assert(!spec_pruned(*old(self), Albedo { r: fx::ONE, g: fx::ONE, b: fx::ONE },
                        0));
                    assert(s == Sample { value: bg, probability: fx::ONE as i64 });
                    fx::lemma_div_one(bg.r as int);
                    fx::lemma_div_one(bg.g as int);
                    fx::lemma_div_one(bg.b as int);
                    assert(fx::MIN <= (i + 1) * bg.r <= fx::MAX && fx::MIN <= i * bg.r
                        <= fx::MAX && i * bg.r + bg.r == (i + 1) * bg.r) by (nonlinear_arith)
                        requires
                            0 <= i,
                            i + 1 <= ns,
                            fx::MIN <= ns * bg.r <= fx::MAX,
                            fx::MIN <= bg.r <= fx::MAX;
                    assert(fx::MIN <= (i + 1) * bg.g <= fx::MAX && fx::MIN <= i * bg.g
                        <= fx::MAX && i * bg.g + bg.g == (i + 1) * bg.g) by (nonlinear_arith)
                        requires
                            0 <= i,
                            i + 1 <= ns,
                            fx::MIN <= ns * bg.g <= fx::MAX,
                            fx::MIN <= bg.g <= fx::MAX;
                    assert(fx::MIN <= (i + 1) * bg.b <= fx::MAX && fx::MIN <= i * bg.b
                        <= fx::MAX && i * bg.b + bg.b == (i + 1) * bg.b) by (nonlinear_arith)
                        requires
                            0 <= i,
                            i + 1 <= ns,
                            fx::MIN <= ns * bg.b <= fx::MAX,
                            fx::MIN <= bg.b <= fx::MAX;
                }
            }
            estimate.add(s);
            proof {
                lemma_accumulate_push(ss, s, i as nat);
                ss = ss.push(s);
            }
            i = i + 1;
        }
        proof {
            if spec_background_only(*old(self), *scene) {
                assert(fx::MIN <= bg.r <= fx::MAX && fx::MIN <= bg.g <= fx::MAX && fx::MIN <= bg.b
                    <= fx::MAX) by (nonlinear_arith)
                    requires
                        1 <= ns,
                        fx::MIN <= ns * bg.r,
                        fx::MIN <= ns * bg.g,
                        fx::MIN <= ns * bg.b,
                        i64::MIN <= bg.r <= i64::MAX,
                        i64::MIN <= bg.g <= i64::MAX,
                        i64::MIN <= bg.b <= i64::MAX;
                assert(i as int * (fx::ONE as int) <= fx::MAX) by (nonlinear_arith)
                    requires
                        1 <= i <= u32::MAX;
                fx::lemma_div_multiple(bg.r as int, i as int);
                fx::lemma_div_multiple(bg.g as int, i as int);
                fx::lemma_div_multiple(bg.b as int, i as int);
            }
        }
        let out: Radiance = estimate.value();
        proof {
            assert(exists|ss2: Seq<Sample>|
                ss2.len() == old(self).samples && out == spec_est_value(
                    spec_accumulate(ss2, old(self).samples as nat),
                )) by {
                assert(ss.len() == old(self).samples && out == spec_est_value(
                    spec_accumulate(ss, old(self).samples as nat),
                ));
            }
        }
        Ok(out)
    }
}

} // verus!
