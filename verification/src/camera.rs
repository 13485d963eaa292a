//! Camera types and view mapping.
//!
//! A camera maps a discrete pixel position in an image of some resolution
//! to a world-space primary ray. Pixel centers are mapped to the continuous
//! square `[-1, 1] x [-1, 1]`, with `+y` up.

use vstd::prelude::*;
use crate::fx;
use crate::fx::Fx;
use crate::geometry::Ray;

pub mod affine;
pub mod projective;

pub use self::affine::AffineTransformCamera;
pub use self::projective::ProjectiveTransformCamera;

verus! {

/// A pair of `u32` representing the resolution of an image.
#[derive(Clone, Copy, Debug, PartialEq, Eq, Structural)]
pub struct Resolution {
    /// The horizontal resolution.
    pub width: u32,
    /// The vertical resolution.
    pub height: u32,
}

impl Resolution {
    /// Creates a new `Resolution`.
    pub fn new(width: u32, height: u32) -> (r: Resolution)
        ensures
            r.width == width,
            r.height == height,
    {
        Resolution { width, height }
    }
}

/// A pixel position within an image buffer.
#[derive(Clone, Copy, Debug, PartialEq, Eq, Structural)]
pub struct Target {
    /// The horizontal position.
    pub x: u32,
    /// The vertical position.
    pub y: u32,
}

/// The width of one pixel when `n` pixels cover a span of two wholes.
pub open spec fn spec_step(n: int) -> int {
    fx::spec_div(fx::TWO as int, fx::clip(n * (fx::ONE as int)))
}

/// What the horizontal component of `Target::normalized` is: the pixel
/// center mapped into `[-1, 1]`, `+x` to the right.
pub open spec fn spec_normalized_x(t: Target, res: Resolution) -> int {
    let step = spec_step(res.width as int);
    fx::spec_add(
        fx::spec_sub(fx::spec_mul(fx::clip(t.x * (fx::ONE as int)), step), fx::ONE as int),
        fx::spec_mul(fx::HALF as int, step),
    )
}

/// What the vertical component of `Target::normalized` is: the pixel
/// center mapped into `[-1, 1]`, inverted so `+y` is up.
pub open spec fn spec_normalized_y(t: Target, res: Resolution) -> int {
    let step = spec_step(res.height as int);
    fx::spec_sub(
        fx::spec_sub(fx::ONE as int, fx::spec_mul(fx::clip(t.y * (fx::ONE as int)), step)),
        fx::spec_mul(fx::HALF as int, step),
    )
}

impl Target {
    /// Creates a new `Target`.
    pub fn new(x: u32, y: u32) -> (t: Target)
        ensures
            t.x == x,
            t.y == y,
    {
        Target { x, y }
    }

    /// Map the pixel position to the continuous square `[-1, 1] x [-1, 1]`
    /// at the center of the pixel, with `+x` right and `+y` up.
    pub fn normalized(self, resolution: Resolution) -> (r: (Fx, Fx))
        ensures
            r.0 == spec_normalized_x(self, resolution),
            r.1 == spec_normalized_y(self, resolution),
    {
        let step_x: Fx = fx::div(fx::TWO, fx::of_int(resolution.width as i64));
        let step_y: Fx = fx::div(fx::TWO, fx::of_int(resolution.height as i64));
        let px: Fx = fx::mul(fx::of_int(self.x as i64), step_x);
        let py: Fx = fx::mul(fx::of_int(self.y as i64), step_y);
        (
            fx::add(fx::sub(px, fx::ONE), fx::mul(fx::HALF, step_x)),
            fx::sub(fx::sub(fx::ONE, py), fx::mul(fx::HALF, step_y)),
        )
    }
}

/// A camera: a mapping from pixel positions to primary rays.
pub trait Camera {
    /// What `primary` returns, as a function of camera, resolution and
    /// pixel.
    spec fn spec_primary(&self, resolution: Resolution, target: Target) -> Ray;

    /// Whether every pixel maps to a nondegenerate primary ray.
    spec fn wf(&self) -> bool;

    /// Construct the `Ray` along which light reaches the pixel `target` in
    /// a render buffer of size `resolution`.
    fn primary(&self, resolution: Resolution, target: Target) -> (r: Ray)
        requires
            self.wf(),
        ensures
            r == self.spec_primary(resolution, target),
    ;
}

} // verus!
