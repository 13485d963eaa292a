//! Renderers: strategies for computing the radiance through a pixel.

use vstd::prelude::*;
use crate::camera::{Camera, Resolution, Target};
use crate::lighting::Radiance;
use crate::scene::Scene;

pub mod debug;
pub mod path;
pub mod ray;

pub use self::debug::DebugRenderer;
pub use self::path::PathTracer;
pub use self::ray::{Light, RayTracer};

verus! {

/// A rendering failure.
#[derive(Clone, Copy, Debug, PartialEq, Eq, Structural)]
pub enum RenderError {
    /// The scene demanded a scattering effect the integrator does not
    /// support.
    UnsupportedEffect,
}

/// A renderer: a strategy turning a scene, a camera and a pixel into
/// radiance.
pub trait Renderer {
    /// Whether the renderer is configured to draw (sample budgets and the
    /// like).
    spec fn wf(&self) -> bool;

    /// Compute the radiance arriving at the pixel `target` of an image of
    /// size `resolution`.
    fn render<C: Camera>(
        &mut self,
        scene: &Scene,
        camera: &C,
        resolution: Resolution,
        target: Target,
    ) -> Result<Radiance, RenderError>
        requires
            old(self).wf(),
            camera.wf(),
    ;
}

} // verus!
