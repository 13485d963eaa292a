//! The integrators: tracing, rendering, and their exact special cases.

use lucifer::affine::Affine;
use lucifer::camera::{AffineTransformCamera, Resolution, Target};
use lucifer::fx;
use lucifer::geometry::{Geometry, Ray, Sphere};
use lucifer::lighting::{Albedo, Blackbody, Lambert, Material, Radiance};
use lucifer::random::Rand;
use lucifer::render::{DebugRenderer, Light, PathTracer, RayTracer, Renderer};
use lucifer::scene::{Object, Scene};
use lucifer::vec::V3;

fn v(x: i64, y: i64, z: i64) -> V3 {
    V3 { x, y, z }
}

fn tracer(samples: u32) -> PathTracer {
    // A luma cutoff of about 0.01, a depth limit of 8.
    PathTracer::new(Rand::from_seed(42), 655, 8, samples)
}

#[test]
fn trace_emissive_only_scene_returns_the_emission_term() {
    // A scene holding one purely emissive sphere: tracing at depth zero
    // returns exactly the emission (the viewing cosine is one head-on)
    // with probability one, without any recursion.
    let emission = Radiance::new(fx::ONE, 2 * fx::ONE, fx::HALF);
    let mut scene = Scene::new(Radiance::none());
    scene.add(
        Object::new(
            Geometry::Sphere(Sphere::new(v(0, 0, 0), fx::ONE)),
            Material::Blackbody(Blackbody::new(emission)),
            Affine::identity(),
        )
        .unwrap(),
    );

    let ray = Ray::new(v(0, 0, -4 * fx::ONE), v(0, 0, fx::ONE));
    let mut t = tracer(1);
    let sample = t.trace(&scene, &ray, Albedo::white(), 0).expect("tracing cannot fail");
    assert_eq!(sample.value, emission);
    assert_eq!(sample.probability, fx::ONE);
}

#[test]
fn trace_miss_returns_the_background() {
    let scene = Scene::new(Radiance::new(100, 200, 300));
    let ray = Ray::new(v(0, 0, 0), v(0, 0, fx::ONE));
    let mut t = tracer(1);
    let sample = t.trace(&scene, &ray, Albedo::white(), 0).expect("tracing cannot fail");
    assert_eq!(sample.value, Radiance::new(100, 200, 300));
    assert_eq!(sample.probability, fx::ONE);
}

#[test]
fn trace_at_the_depth_limit_returns_nothing() {
    let scene = Scene::new(Radiance::gray(fx::ONE));
    let ray = Ray::new(v(0, 0, 0), v(0, 0, fx::ONE));
    let mut t = tracer(1);
    let sample = t.trace(&scene, &ray, Albedo::white(), 8).expect("tracing cannot fail");
    assert_eq!(sample.value, Radiance::none());
    assert_eq!(sample.probability, fx::ONE);
}

#[test]
fn trace_prunes_a_dim_contribution() {
    let scene = Scene::new(Radiance::gray(fx::ONE));
    let ray = Ray::new(v(0, 0, 0), v(0, 0, fx::ONE));
    let mut t = tracer(1);
    // A contribution far below the luma cutoff stops the path at once.
    let sample = t.trace(&scene, &ray, Albedo::gray(10), 0).expect("tracing cannot fail");
    assert_eq!(sample.value, Radiance::none());
}

#[test]
fn render_of_empty_scene_is_the_background() {
    // With no objects, every sample returns the background with
    // probability one, and the estimator's mean reproduces it exactly.
    let background = Radiance::new(100, 200, 300);
    let scene = Scene::new(background);
    let camera = AffineTransformCamera::new(Affine::identity());
    let mut t = tracer(4);
    let out = t
        .render(&scene, &camera, Resolution::new(8, 8), Target::new(3, 5))
        .expect("rendering cannot fail");
    assert_eq!(out, background);
}

#[test]
fn render_with_a_reflective_scene_completes() {
    // A sanity run of the full integrator over a reflective sphere lit by
    // an emissive one; radiance must be finite and nonnegative.
    let mut scene = Scene::new(Radiance::none());
    scene.add(
        Object::new(
            Geometry::Sphere(Sphere::new(v(0, 0, 0), fx::ONE)),
            Material::Lambert(Lambert::new(Albedo::gray(fx::HALF))),
            Affine::identity(),
        )
        .unwrap(),
    );
    scene.add(
        Object::new(
            Geometry::Sphere(Sphere::new(v(0, 4 * fx::ONE, 0), fx::ONE)),
            Material::Blackbody(Blackbody::new(Radiance::gray(4 * fx::ONE))),
            Affine::identity(),
        )
        .unwrap(),
    );
    let camera = AffineTransformCamera::new(Affine::identity());
    let mut t = tracer(16);
    let out = t
        .render(&scene, &camera, Resolution::new(4, 4), Target::new(2, 2))
        .expect("rendering cannot fail");
    assert!(out.r >= 0 && out.g >= 0 && out.b >= 0);
}

#[test]
fn debug_renderer_paints_the_background_on_a_miss() {
    let background = Radiance::new(1, 2, 3);
    let scene = Scene::new(background);
    let camera = AffineTransformCamera::new(Affine::identity());
    let mut d = DebugRenderer::new();
    let out = d
        .render(&scene, &camera, Resolution::new(2, 2), Target::new(0, 0))
        .expect("debug rendering cannot fail");
    assert_eq!(out, background);
}

#[test]
fn debug_renderer_paints_normals_on_a_hit() {
    let mut scene = Scene::new(Radiance::none());
    scene.add(
        Object::new(
            Geometry::Sphere(Sphere::new(v(0, 0, 4 * fx::ONE), fx::ONE)),
            Material::Lambert(Lambert::new(Albedo::gray(fx::HALF))),
            Affine::identity(),
        )
        .unwrap(),
    );
    let camera = AffineTransformCamera::new(Affine::identity());
    let mut d = DebugRenderer::new();
    let out = d
        .render(&scene, &camera, Resolution::new(1, 1), Target::new(0, 0))
        .expect("debug rendering cannot fail");
    // The visible face's normal points toward -z, so the blue channel is
    // dark and red/green sit near the midpoint of the color range.
    assert!(out.b < out.r);
    assert_eq!(out.r, out.g);
}

#[test]
fn ray_tracer_returns_background_on_a_miss() {
    let background = Radiance::new(7, 8, 9);
    let scene = Scene::new(background);
    let camera = AffineTransformCamera::new(Affine::identity());
    let light = Light {
        position: v(0, 4 * fx::ONE, 0),
        emission: Radiance::gray(fx::ONE),
        radius: fx::ONE,
    };
    let mut r = RayTracer::new(light);
    let out = r
        .render(&scene, &camera, Resolution::new(2, 2), Target::new(1, 1))
        .expect("ray tracing cannot fail");
    assert_eq!(out, background);
}

#[test]
fn ray_tracer_lights_a_lit_face() {
    // A diffuse sphere ahead of the camera, lit from the camera's side:
    // the lit face reflects a positive radiance.
    let mut scene = Scene::new(Radiance::none());
    scene.add(
        Object::new(
            Geometry::Sphere(Sphere::new(v(0, 0, 4 * fx::ONE), fx::ONE)),
            Material::Lambert(Lambert::new(Albedo::gray(fx::ONE))),
            Affine::identity(),
        )
        .unwrap(),
    );
    let camera = AffineTransformCamera::new(Affine::identity());
    let light = Light {
        position: v(0, 0, -8 * fx::ONE),
        emission: Radiance::gray(100 * fx::ONE),
        radius: 4 * fx::ONE,
    };
    let mut r = RayTracer::new(light);
    let out = r
        .render(&scene, &camera, Resolution::new(1, 1), Target::new(0, 0))
        .expect("ray tracing cannot fail");
    assert!(out.r > 0, "a lit diffuse face must reflect light, got {}", out.r);
}
