//! Distribution densities, sampling statistics, and material shading.

use lucifer::fx;
use lucifer::geometry::{Ray, Sphere};
use lucifer::lighting::{Albedo, Blackbody, Distribution, Effect, Lambert, Material, Phong, Radiance};
use lucifer::random::Rand;
use lucifer::vec::V3;

fn v(x: i64, y: i64, z: i64) -> V3 {
    V3 { x, y, z }
}

fn any_intersection() -> lucifer::geometry::Intersection {
    let sphere = Sphere::new(v(0, 0, 0), fx::ONE);
    let ray = Ray::new(v(0, 0, -2 * fx::ONE), v(0, 0, fx::ONE));
    sphere.intersect(&ray).expect("frontal ray must hit")
}

#[test]
fn eval_unit_cosine_values() {
    assert_eq!(Distribution::Cosine.eval(fx::ONE), fx::ONE);
    assert_eq!(Distribution::Uniform.eval(fx::ONE), fx::ONE);
    assert_eq!(Distribution::Dirac.eval(fx::ONE), fx::ONE);
}

#[test]
fn eval_is_zero_over_the_back_hemisphere() {
    let distributions = vec![
        Distribution::Dirac,
        Distribution::Uniform,
        Distribution::Cosine,
        Distribution::CosineExp(5),
    ];
    for d in distributions {
        assert_eq!(d.eval(-1), 0);
        assert_eq!(d.eval(-fx::HALF), 0);
        assert_eq!(d.eval(-fx::ONE), 0);
    }
}

#[test]
fn eval_dirac_is_zero_off_axis() {
    assert_eq!(Distribution::Dirac.eval(fx::HALF), 0);
    assert_eq!(Distribution::Dirac.eval(0), 0);
}

#[test]
fn eval_uniform_cancels_the_cosine() {
    // 1 / 0.5 = 2.
    assert_eq!(Distribution::Uniform.eval(fx::HALF), 2 * fx::ONE);
}

#[test]
fn eval_cosine_exp_matches_powers() {
    // cos^2 at cos = 0.5 is 0.25; exponent zero matches Uniform.
    assert_eq!(Distribution::CosineExp(3).eval(fx::HALF), fx::ONE / 4);
    assert_eq!(
        Distribution::CosineExp(0).eval(fx::HALF),
        Distribution::Uniform.eval(fx::HALF),
    );
    assert_eq!(
        Distribution::CosineExp(1).eval(fx::HALF),
        Distribution::Cosine.eval(fx::HALF),
    );
}

#[test]
fn cosine_sampling_statistics() {
    // Over many draws the cosine-weighted axis component averages near
    // its analytic mean 2/3; every sample lies in the upper hemisphere at
    // unit length (within fixed-point tolerance).
    let mut rng = Rand::from_seed(7);
    let n: i64 = 10_000;
    let mut sum_z: i64 = 0;
    for _ in 0..n {
        let (dir, pdf) = Distribution::Cosine.sample(&mut rng);
        assert!(dir.z >= 0);
        assert!(dir.z <= fx::ONE);
        // The reported density is the sampling density at the drawn
        // cosine, z / pi.
        assert_eq!(pdf, fx::div(dir.z, 205887));
        let norm2 = dir.norm2();
        assert!(
            (norm2 - fx::ONE).abs() < 1024,
            "sample is far from unit length: {norm2}"
        );
        sum_z += dir.z;
    }
    let mean = sum_z / n;
    let expected = 2 * fx::ONE / 3;
    assert!(
        (mean - expected).abs() < 1000,
        "mean axis cosine {mean} is far from {expected}"
    );
}

#[test]
fn uniform_sampling_stays_in_hemisphere() {
    let mut rng = Rand::from_seed(11);
    for _ in 0..1000 {
        let (dir, pdf) = Distribution::Uniform.sample(&mut rng);
        assert!(dir.z > 0);
        assert_eq!(pdf, 10430);
    }
}

#[test]
fn glossy_sampling_density_matches_the_uniform_one_at_exponent_zero() {
    // The glossy density (e+1) * z^e / (2*pi) collapses to the constant
    // uniform density 1/(2*pi) at exponent zero, for every draw.
    let mut rng = Rand::from_seed(5);
    for _ in 0..100 {
        let (_, pdf) = Distribution::CosineExp(0).sample(&mut rng);
        assert_eq!(pdf, 10430);
    }
}

#[test]
fn glossy_sampling_density_tracks_the_cosine_one_at_exponent_one() {
    // At exponent one the glossy density 2*z/(2*pi) is the cosine density
    // z/pi up to one truncation unit.
    let mut rng = Rand::from_seed(6);
    for _ in 0..100 {
        let (dir, pdf) = Distribution::CosineExp(1).sample(&mut rng);
        let cosine_pdf = fx::div(dir.z, 205887);
        assert!((pdf - cosine_pdf).abs() <= 1, "{pdf} vs {cosine_pdf}");
    }
}

#[test]
fn sampled_directions_are_unit_length_for_every_distribution() {
    let mut rng = Rand::from_seed(9);
    let distributions = vec![
        Distribution::Dirac,
        Distribution::Uniform,
        Distribution::Cosine,
        Distribution::CosineExp(4),
    ];
    for d in distributions {
        for _ in 0..200 {
            let (dir, _) = d.sample(&mut rng);
            assert!(dir.z > 0);
            assert!((dir.norm2() - fx::ONE).abs() <= 64);
        }
    }
}

#[test]
fn dirac_sampling_returns_the_axis() {
    let mut rng = Rand::from_seed(3);
    let (dir, pdf) = Distribution::Dirac.sample(&mut rng);
    assert_eq!(dir, v(0, 0, fx::ONE));
    assert_eq!(pdf, 10430);
}

#[test]
fn blackbody_shades_one_emission() {
    let radiance = Radiance::new(fx::ONE, 2 * fx::ONE, fx::HALF);
    let m = Material::Blackbody(Blackbody::new(radiance));
    let bsdf = m.shade(&any_intersection());
    assert_eq!(bsdf.effects.len(), 1);
    match bsdf.effects[0] {
        Effect::Emission(r, Distribution::Cosine) => assert_eq!(r, radiance),
        _ => panic!("expected a cosine-weighted emission"),
    }
}

#[test]
fn lambert_shades_one_diffuse_reflection() {
    let albedo = Albedo::gray(fx::HALF);
    let m = Material::Lambert(Lambert::new(albedo));
    let bsdf = m.shade(&any_intersection());
    assert_eq!(bsdf.effects.len(), 1);
    match bsdf.effects[0] {
        Effect::DiffuseReflection(a, Distribution::Cosine) => assert_eq!(a, albedo),
        _ => panic!("expected a cosine-weighted diffuse reflection"),
    }
}

#[test]
fn phong_shades_only_nonzero_components() {
    let empty = Material::Phong(Phong::new());
    assert_eq!(empty.shade(&any_intersection()).effects.len(), 0);

    let full = Phong::new()
        .glow(Radiance::gray(fx::ONE))
        .color(Albedo::gray(fx::HALF))
        .highlight(Albedo::gray(fx::ONE), 10);
    let bsdf = Material::Phong(full).shade(&any_intersection());
    assert_eq!(bsdf.effects.len(), 3);
    assert!(matches!(bsdf.effects[0], Effect::Emission(_, Distribution::Cosine)));
    assert!(matches!(bsdf.effects[1], Effect::DiffuseReflection(_, Distribution::Cosine)));
    assert!(matches!(
        bsdf.effects[2],
        Effect::SpecularReflection(_, Distribution::CosineExp(10))
    ));

    let diffuse_only = Material::Phong(Phong::new().color(Albedo::gray(fx::HALF)));
    let bsdf = diffuse_only.shade(&any_intersection());
    assert_eq!(bsdf.effects.len(), 1);
    assert!(matches!(bsdf.effects[0], Effect::DiffuseReflection(_, _)));
}

#[test]
fn radiance_luma_uses_ntsc_weights() {
    // Pure white sums the three weights; a pure green is worth its 0.72.
    assert_eq!(Radiance::gray(fx::ONE).luma(), 13763 + 47186 + 4588);
    assert_eq!(Radiance::green(fx::ONE).luma(), 47186);
    assert_eq!(Albedo::white().luma_factor(), 13763 + 47186 + 4588);
}

#[test]
fn radiance_algebra() {
    let a = Radiance::new(fx::ONE, fx::HALF, 0);
    let b = Radiance::new(fx::ONE, fx::ONE, fx::ONE);
    assert_eq!(a.add(b), Radiance::new(2 * fx::ONE, fx::ONE + fx::HALF, fx::ONE));
    assert_eq!(a.scale(fx::HALF), Radiance::new(fx::HALF, fx::ONE / 4, 0));
    let tint = Albedo::new(fx::HALF, fx::ONE, 0);
    assert_eq!(b.mul(tint), Radiance::new(fx::HALF, fx::ONE, 0));
    assert!(Radiance::none().is_zero());
    assert!(!Radiance::red(1).is_zero());
}
