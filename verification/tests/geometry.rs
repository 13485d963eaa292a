//! Ray/primitive intersection behavior on concrete shapes.

use lucifer::fx;
use lucifer::geometry::{Cube, Disc, Geometry, Plane, Ray, Sphere};
use lucifer::vec::V3;

fn v(x: i64, y: i64, z: i64) -> V3 {
    V3 { x, y, z }
}

/// 2.0 in fixed-point units.
const TWO: i64 = 131072;

#[test]
fn sphere_frontal_hit_reports_radius_distance() {
    // A sphere of radius r centered at the origin, shot from (0, 0, -2r)
    // toward +z, is hit at distance r with normal (0, 0, -1).
    let r: i64 = TWO;
    let sphere = Sphere::new(v(0, 0, 0), r);
    let ray = Ray::new(v(0, 0, -2 * r), v(0, 0, fx::ONE));
    let hit = sphere.intersect(&ray).expect("frontal ray must hit");
    assert_eq!(hit.lambda, r);
    assert_eq!(hit.normal, v(0, 0, -fx::ONE));
    assert_eq!(hit.position, v(0, 0, -r));
    assert!(!hit.inside);
}

#[test]
fn sphere_ray_pointing_away_misses() {
    let sphere = Sphere::new(v(0, 0, 0), fx::ONE);
    let ray = Ray::new(v(0, 0, -2 * fx::ONE), v(0, 0, -fx::ONE));
    assert!(sphere.intersect(&ray).is_none());
}

#[test]
fn sphere_inside_hit_uses_far_root_and_flips_normal() {
    let sphere = Sphere::new(v(0, 0, 0), TWO);
    let ray = Ray::new(v(0, 0, 0), v(0, 0, fx::ONE));
    let hit = sphere.intersect(&ray).expect("inside ray must exit");
    assert!(hit.inside);
    assert_eq!(hit.lambda, TWO);
    assert_eq!(hit.normal, v(0, 0, -fx::ONE));
}

#[test]
fn plane_hit_and_miss() {
    // The z = 0 plane, shot from above straight down.
    let plane = Plane::new(v(0, 0, fx::ONE), 0);
    let down = Ray::new(v(32768, 0, TWO), v(0, 0, -fx::ONE));
    let hit = plane.intersect(&down).expect("downward ray must hit");
    assert_eq!(hit.lambda, TWO);
    assert_eq!(hit.position, v(32768, 0, 0));
    assert_eq!(hit.normal, v(0, 0, fx::ONE));
    assert!(!hit.inside);

    // Shot away from the plane there is no hit.
    let up = Ray::new(v(32768, 0, TWO), v(0, 0, fx::ONE));
    assert!(plane.intersect(&up).is_none());
}

#[test]
fn plane_back_side_hit_is_inside_with_flipped_normal() {
    let plane = Plane::new(v(0, 0, fx::ONE), 0);
    let ray = Ray::new(v(0, 0, -TWO), v(0, 0, fx::ONE));
    let hit = plane.intersect(&ray).expect("ray toward back face must hit");
    assert!(hit.inside);
    assert_eq!(hit.normal, v(0, 0, -fx::ONE));
}

#[test]
fn disc_agrees_with_plane_inside_radius_and_misses_outside() {
    // A disc and a plane with the same center, normal and offset agree on
    // hits within the radius; beyond it only the plane still hits.
    let disc = Disc::new(v(0, 0, 0), v(0, 0, fx::ONE), fx::ONE);
    let plane = Plane::new(v(0, 0, fx::ONE), 0);

    let inside = Ray::new(v(32768, 0, TWO), v(0, 0, -fx::ONE));
    let d_hit = disc.intersect(&inside).expect("hit within the radius");
    let p_hit = plane.intersect(&inside).expect("plane hit");
    assert_eq!(d_hit, p_hit);

    let outside = Ray::new(v(TWO, 0, TWO), v(0, 0, -fx::ONE));
    assert!(disc.intersect(&outside).is_none());
    assert!(plane.intersect(&outside).is_some());
}

#[test]
fn disc_ray_pointing_away_misses() {
    let disc = Disc::new(v(0, 0, 0), v(0, 0, fx::ONE), fx::ONE);
    let ray = Ray::new(v(0, 0, TWO), v(0, 0, fx::ONE));
    assert!(disc.intersect(&ray).is_none());
}

#[test]
fn cube_frontal_hit() {
    // A cube of half-extent (1, 1, 1) centered at the origin, shot from
    // (0, 0, -5) toward +z, is hit at distance 4 with normal (0, 0, -1).
    let cube = Cube::new(v(0, 0, 0), v(TWO, TWO, TWO));
    assert_eq!(cube.radius, v(fx::ONE, fx::ONE, fx::ONE));
    let ray = Ray::new(v(0, 0, -5 * fx::ONE), v(0, 0, fx::ONE));
    let hit = cube.intersect(&ray).expect("frontal ray must hit");
    assert_eq!(hit.lambda, 4 * fx::ONE);
    assert_eq!(hit.normal, v(0, 0, -fx::ONE));
    assert!(!hit.inside);
}

#[test]
fn cube_inside_hit_reports_inside_and_exit() {
    // From the center toward +z the ray leaves through the z = +1 face at
    // distance 1; the hit is flagged inside and the normal, flipped
    // toward the side the ray came from, points along -z.
    let cube = Cube::new(v(0, 0, 0), v(TWO, TWO, TWO));
    let ray = Ray::new(v(0, 0, 0), v(0, 0, fx::ONE));
    let hit = cube.intersect(&ray).expect("inside ray must exit");
    assert!(hit.inside);
    assert_eq!(hit.lambda, fx::ONE);
    assert_eq!(hit.normal, v(0, 0, -fx::ONE));
}

#[test]
fn cube_ray_pointing_away_misses() {
    let cube = Cube::new(v(0, 0, 0), v(TWO, TWO, TWO));
    let ray = Ray::new(v(0, 0, -5 * fx::ONE), v(0, 0, -fx::ONE));
    assert!(cube.intersect(&ray).is_none());
}

#[test]
fn cube_parallel_ray_outside_a_slab_misses() {
    // Running parallel to the x slabs but above the cube, the ray never
    // enters; the zero direction component must not crash the division.
    let cube = Cube::new(v(0, 0, 0), v(TWO, TWO, TWO));
    let ray = Ray::new(v(0, TWO, -5 * fx::ONE), v(0, 0, fx::ONE));
    assert!(cube.intersect(&ray).is_none());
}

#[test]
fn cube_parallel_ray_inside_the_slabs_hits() {
    let cube = Cube::new(v(0, 0, 0), v(TWO, TWO, TWO));
    let ray = Ray::new(v(32768, 32768, -5 * fx::ONE), v(0, 0, fx::ONE));
    let hit = cube.intersect(&ray).expect("the ray runs through the cube");
    assert_eq!(hit.lambda, 4 * fx::ONE);
    assert_eq!(hit.normal, v(0, 0, -fx::ONE));
}

#[test]
fn occlude_agrees_with_intersect_for_every_variant() {
    let shapes = vec![
        Geometry::Sphere(Sphere::new(v(0, 0, 0), fx::ONE)),
        Geometry::Plane(Plane::new(v(0, 0, fx::ONE), 0)),
        Geometry::Disc(Disc::new(v(0, 0, 0), v(0, 0, fx::ONE), fx::ONE)),
        Geometry::Cube(Cube::new(v(0, 0, 0), v(TWO, TWO, TWO))),
    ];
    let rays = vec![
        Ray::new(v(0, 0, -TWO), v(0, 0, fx::ONE)),
        Ray::new(v(0, 0, -TWO), v(0, 0, -fx::ONE)),
        Ray::new(v(TWO, TWO, TWO), v(fx::ONE, 0, 0)),
        Ray::new(v(0, 32768, -TWO), v(0, 0, fx::ONE)),
    ];
    for shape in &shapes {
        for ray in &rays {
            assert_eq!(shape.occlude(ray), shape.intersect(ray).is_some());
        }
    }
}

#[test]
fn ray_new_normalizes_and_is_unbounded() {
    let ray = Ray::new(v(fx::ONE, TWO, 0), v(0, 0, 3 * fx::ONE));
    assert_eq!(ray.origin, v(fx::ONE, TWO, 0));
    assert_eq!(ray.direction, v(0, 0, fx::ONE));
    assert_eq!(ray.length, fx::MAX);
}

#[test]
fn ray_from_endpoints_measures_length() {
    let ray = Ray::from_endpoints(v(0, 0, 0), v(0, 0, TWO));
    assert_eq!(ray.direction, v(0, 0, fx::ONE));
    assert_eq!(ray.length, TWO);
}
