//! Pixel-to-view mapping and the affine camera.

use lucifer::affine::{Affine, Projective};
use lucifer::camera::{AffineTransformCamera, Camera, ProjectiveTransformCamera, Resolution, Target};
use lucifer::fx;

#[test]
fn resolution_and_target_hold_their_fields() {
    let res = Resolution::new(1024, 768);
    assert_eq!(res.width, 1024);
    assert_eq!(res.height, 768);
    let t = Target::new(0, 1);
    assert_eq!(t.x, 0);
    assert_eq!(t.y, 1);
}

#[test]
fn normalized_maps_pixel_centers_into_the_unit_square() {
    // In a 2x2 image the pixel (1, 0) has its center at (0.5, 0.5).
    let res = Resolution::new(2, 2);
    let (x, y) = Target::new(1, 0).normalized(res);
    assert_eq!(x, fx::HALF);
    assert_eq!(y, fx::HALF);

    // The pixel (0, 1) mirrors it to (-0.5, -0.5); +y is up.
    let (x, y) = Target::new(0, 1).normalized(res);
    assert_eq!(x, -fx::HALF);
    assert_eq!(y, -fx::HALF);
}

#[test]
fn normalized_centers_a_single_pixel() {
    let res = Resolution::new(1, 1);
    let (x, y) = Target::new(0, 0).normalized(res);
    assert_eq!(x, 0);
    assert_eq!(y, 0);
}

#[test]
fn identity_camera_shoots_along_positive_z() {
    let camera = AffineTransformCamera::new(Affine::identity());
    let ray = camera.primary(Resolution::new(1, 1), Target::new(0, 0));
    assert_eq!(ray.origin.x, 0);
    assert_eq!(ray.origin.y, 0);
    assert_eq!(ray.origin.z, -fx::ONE);
    assert_eq!(ray.direction.x, 0);
    assert_eq!(ray.direction.y, 0);
    assert_eq!(ray.direction.z, fx::ONE);
    assert_eq!(ray.length, fx::MAX);
}

#[test]
fn projective_identity_camera_matches_the_affine_one() {
    let camera = ProjectiveTransformCamera::new(Projective::identity());
    let ray = camera.primary(Resolution::new(1, 1), Target::new(0, 0));
    assert_eq!(ray.origin.z, -fx::ONE);
    assert_eq!(ray.direction.z, fx::ONE);
    assert_eq!(ray.direction.x, 0);
    assert_eq!(ray.direction.y, 0);
}
