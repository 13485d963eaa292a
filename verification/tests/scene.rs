//! Scene composition: transforms, nearest-hit resolution and occlusion.

use lucifer::affine::{Affine, Mat3, Mat4, Projective};
use lucifer::vec::V4;
use lucifer::fx;
use lucifer::geometry::{Geometry, Ray, Sphere};
use lucifer::lighting::{Albedo, Lambert, Material, Radiance};
use lucifer::scene::{Object, Scene};
use lucifer::vec::V3;

fn v(x: i64, y: i64, z: i64) -> V3 {
    V3 { x, y, z }
}

const TWO: i64 = 131072;

fn scale(f: i64) -> Affine {
    Affine {
        linear: Mat3 { r0: v(f, 0, 0), r1: v(0, f, 0), r2: v(0, 0, f) },
        translation: v(0, 0, 0),
    }
}

fn plain_material() -> Material {
    Material::Lambert(Lambert::new(Albedo::gray(fx::HALF)))
}

#[test]
fn empty_scene_never_intersects() {
    let scene = Scene::new(Radiance::gray(fx::ONE));
    let ray = Ray::new(v(0, 0, 0), v(0, 0, fx::ONE));
    assert!(scene.intersect(&ray).is_none());
    assert!(!scene.occlude(&ray));
    assert_eq!(scene.background(), Radiance::gray(fx::ONE));
}

#[test]
fn singular_transform_is_rejected_at_construction() {
    let flat = Affine {
        linear: Mat3 { r0: v(fx::ONE, 0, 0), r1: v(0, fx::ONE, 0), r2: v(0, 0, 0) },
        translation: v(0, 0, 0),
    };
    let geometry = Geometry::Sphere(Sphere::new(v(0, 0, 0), fx::ONE));
    assert!(Object::new(geometry, plain_material(), flat).is_none());
}

#[test]
fn scaled_unit_sphere_behaves_like_a_larger_sphere() {
    // An object wrapping a unit sphere under a uniform scale by two is,
    // for intersection purposes, a sphere of radius two.
    let mut scaled = Scene::new(Radiance::none());
    scaled.add(
        Object::new(
            Geometry::Sphere(Sphere::new(v(0, 0, 0), fx::ONE)),
            plain_material(),
            scale(TWO),
        )
        .expect("a uniform scale is invertible"),
    );

    let mut plain = Scene::new(Radiance::none());
    plain.add(
        Object::new(
            Geometry::Sphere(Sphere::new(v(0, 0, 0), TWO)),
            plain_material(),
            Affine::identity(),
        )
        .expect("the identity is invertible"),
    );

    let ray = Ray::new(v(0, 0, -4 * fx::ONE), v(0, 0, fx::ONE));
    let a = scaled.intersect(&ray).expect("scaled sphere must be hit").intersection;
    let b = plain.intersect(&ray).expect("plain sphere must be hit").intersection;

    assert!((a.lambda - b.lambda).abs() <= 2, "lambdas differ: {} vs {}", a.lambda, b.lambda);
    assert!((a.position.z - b.position.z).abs() <= 2);
    assert!((a.normal.z - b.normal.z).abs() <= 2);
    assert_eq!(a.inside, b.inside);
    assert!((a.lambda - TWO).abs() <= 2);
    assert!((a.normal.z - (-fx::ONE)).abs() <= 2);
}

#[test]
fn nearest_object_wins() {
    let mut scene = Scene::new(Radiance::none());
    let near = Object::new(
        Geometry::Sphere(Sphere::new(v(0, 0, -TWO), fx::ONE)),
        plain_material(),
        Affine::identity(),
    )
    .unwrap();
    let far = Object::new(
        Geometry::Sphere(Sphere::new(v(0, 0, TWO), fx::ONE)),
        plain_material(),
        Affine::identity(),
    )
    .unwrap();
    scene.add(far);
    scene.add(near);

    let ray = Ray::new(v(0, 0, -8 * fx::ONE), v(0, 0, fx::ONE));
    let hit = scene.intersect(&ray).expect("both spheres sit on the ray");
    // The nearer sphere's front face sits at z = -3.
    assert_eq!(hit.intersection.position.z, -3 * fx::ONE);
}

#[test]
fn scene_occlusion_agrees_with_intersection() {
    let mut scene = Scene::new(Radiance::none());
    scene.add(
        Object::new(
            Geometry::Sphere(Sphere::new(v(0, 0, 0), fx::ONE)),
            plain_material(),
            Affine::identity(),
        )
        .unwrap(),
    );
    let rays = vec![
        Ray::new(v(0, 0, -TWO), v(0, 0, fx::ONE)),
        Ray::new(v(0, 0, -TWO), v(0, 0, -fx::ONE)),
        Ray::new(v(TWO, TWO, 0), v(fx::ONE, 0, 0)),
    ];
    for ray in &rays {
        assert_eq!(scene.occlude(ray), scene.intersect(ray).is_some());
    }
}

#[test]
fn translated_object_moves_its_hits() {
    let lifted = Affine {
        linear: Mat3::identity(),
        translation: v(0, 4 * fx::ONE, 0),
    };
    let mut scene = Scene::new(Radiance::none());
    scene.add(
        Object::new(
            Geometry::Sphere(Sphere::new(v(0, 0, 0), fx::ONE)),
            plain_material(),
            lifted,
        )
        .unwrap(),
    );

    let miss = Ray::new(v(0, 0, -4 * fx::ONE), v(0, 0, fx::ONE));
    assert!(scene.intersect(&miss).is_none());

    let hit_ray = Ray::new(v(0, 4 * fx::ONE, -4 * fx::ONE), v(0, 0, fx::ONE));
    let hit = scene.intersect(&hit_ray).expect("the lifted sphere sits on this ray");
    assert_eq!(hit.intersection.position.y, 4 * fx::ONE);
    assert_eq!(hit.intersection.lambda, 3 * fx::ONE);
}

#[test]
fn exact_tie_keeps_the_first_object() {
    // Two identical spheres with different materials: the strict
    // less-than comparison keeps the object inserted first.
    let first = Albedo::gray(fx::HALF);
    let second = Albedo::gray(fx::ONE);
    let mut scene = Scene::new(Radiance::none());
    for albedo in [first, second] {
        scene.add(
            Object::new(
                Geometry::Sphere(Sphere::new(v(0, 0, 0), fx::ONE)),
                Material::Lambert(Lambert::new(albedo)),
                Affine::identity(),
            )
            .unwrap(),
        );
    }
    let ray = Ray::new(v(0, 0, -4 * fx::ONE), v(0, 0, fx::ONE));
    let hit = scene.intersect(&ray).expect("both spheres sit on the ray");
    match hit.bsdf.effects[0] {
        lucifer::lighting::Effect::DiffuseReflection(a, _) => assert_eq!(a, first),
        _ => panic!("a Lambert material shades one diffuse reflection"),
    }
}

#[test]
fn affine_inverse_of_identity_and_scale() {
    let id = Affine::identity();
    assert_eq!(id.inverse().unwrap(), id);

    let s = scale(TWO);
    let inv = s.inverse().unwrap();
    assert_eq!(inv.linear.r0, v(fx::HALF, 0, 0));
    assert_eq!(inv.linear.r1, v(0, fx::HALF, 0));
    assert_eq!(inv.linear.r2, v(0, 0, fx::HALF));
    let p = v(TWO, -TWO, 6 * fx::ONE);
    assert_eq!(inv.transform_point(s.transform_point(p)), p);
}

#[test]
fn projective_transform_divides_by_the_homogeneous_coordinate() {
    // A map whose fourth row reads the z coordinate: points are divided
    // by their depth.
    let m = Projective {
        matrix: Mat4 {
            r0: V4 { x: fx::ONE, y: 0, z: 0, w: 0 },
            r1: V4 { x: 0, y: fx::ONE, z: 0, w: 0 },
            r2: V4 { x: 0, y: 0, z: fx::ONE, w: 0 },
            r3: V4 { x: 0, y: 0, z: fx::ONE, w: 0 },
        },
    };
    let p = m.transform_point(v(TWO, 4 * fx::ONE, TWO));
    assert_eq!(p, v(fx::ONE, TWO, fx::ONE));
}
