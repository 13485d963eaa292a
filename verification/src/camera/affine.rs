//! A camera model defined by an affine transformation.
//!
//! The pixel is mapped to the near plane `z = -1`; that point and the one
//! two wholes behind it along `+z` are pushed through the transform, and
//! the primary ray runs from the first through the second.

use vstd::prelude::*;
use crate::affine::{spec_transform_point, Affine};
use crate::camera::{spec_normalized_x, spec_normalized_y, Camera, Resolution, Target};
use crate::fx;
use crate::fx::Fx;
use crate::geometry::Ray;
use crate::vec::{spec_norm2, spec_normalize, spec_vsub, V3};

verus! {

/// A camera positioned by an affine map.
#[derive(Clone, Copy, Debug, PartialEq, Eq, Structural)]
pub struct AffineTransformCamera {
    /// The transformation applied to the canonical view volume.
    pub transform: Affine,
}

/// The untransformed near-plane point of a pixel.
pub open spec fn spec_view_point(res: Resolution, tg: Target) -> V3 {
    V3 {
        x: spec_normalized_x(tg, res) as i64,
        y: spec_normalized_y(tg, res) as i64,
        z: fx::NEG_ONE as i64,
    }
}

/// The world-space origin of a pixel's primary ray.
pub open spec fn spec_primary_origin(c: AffineTransformCamera, res: Resolution, tg: Target) -> V3 {
    spec_transform_point(c.transform, spec_view_point(res, tg))
}

/// The world-space direction of a pixel's primary ray (before
/// normalization).
pub open spec fn spec_primary_dir(c: AffineTransformCamera, res: Resolution, tg: Target) -> V3 {
    let o = spec_view_point(res, tg);
    let t = V3 { x: o.x, y: o.y, z: fx::spec_add(o.z as int, fx::TWO as int) as i64 };
    spec_vsub(spec_transform_point(c.transform, t), spec_transform_point(c.transform, o))
}

impl AffineTransformCamera {
    /// Creates a new `AffineTransformCamera` with a given transformation.
    pub fn new(transform: Affine) -> (c: AffineTransformCamera)
        ensures
            c.transform == transform,
    {
        AffineTransformCamera { transform }
    }
}

impl Camera for AffineTransformCamera {
    /// The primary ray: from the transformed near-plane point toward the
    /// transformed far point, normalized and unbounded.
    open spec fn spec_primary(&self, resolution: Resolution, target: Target) -> Ray {
        Ray {
            origin: spec_primary_origin(*self, resolution, target),
            direction: spec_normalize(spec_primary_dir(*self, resolution, target)),
            length: fx::MAX as i64,
        }
    }

    /// The camera is usable when no pixel's view direction collapses under
    /// the transform.
    open spec fn wf(&self) -> bool {
        forall|res: Resolution, tg: Target|
            spec_norm2(#[trigger] spec_primary_dir(*self, res, tg)) > 0
    }

    fn primary(&self, resolution: Resolution, target: Target) -> (r: Ray) {
        let (nx, ny): (Fx, Fx) = target.normalized(resolution);
        let o: V3 = V3 { x: nx, y: ny, z: fx::NEG_ONE };
        let t: V3 = V3 { x: o.x, y: o.y, z: fx::add(o.z, fx::TWO) };
        let origin: V3 = self.transform.transform_point(o);
        let tgt: V3 = self.transform.transform_point(t);
        let direction: V3 = tgt.sub(origin);
        Ray::new(origin, direction)
    }
}

} // verus!
