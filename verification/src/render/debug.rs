//! A renderer that visualizes hit distance and normals, for inspecting a
//! scene without lighting.

use vstd::prelude::*;
use crate::camera::{Camera, Resolution, Target};
use crate::fx;
use crate::geometry::Intersection;
use crate::lighting::Radiance;
use crate::render::{RenderError, Renderer};
use crate::scene::{spec_nearest, spec_transform_intersection, Scene};
use crate::vec::{spec_vadd, spec_vscale, V3};

verus! {

/// A depth-and-normal visualizer.
#[derive(Clone, Copy, Debug, PartialEq, Eq, Structural, Default)]
pub struct DebugRenderer {}

/// What `DebugRenderer` paints at a hit: the normal mapped from
/// `[-1, 1]` into color range, dimmed with distance (fully dark from nine
/// wholes out).
pub open spec fn spec_visualize(i: Intersection) -> Radiance {
    let brightness = fx::spec_clamp(
        fx::spec_sub(fx::ONE as int, fx::spec_div(i.lambda as int, 589824)),
        0,
        fx::ONE as int,
    );
    let color = spec_vadd(
        spec_vscale(i.normal, fx::HALF as int),
        V3 { x: fx::HALF, y: fx::HALF, z: fx::HALF },
    );
    Radiance {
        r: fx::spec_mul(color.x as int, brightness) as i64,
        g: fx::spec_mul(color.y as int, brightness) as i64,
        b: fx::spec_mul(color.z as int, brightness) as i64,
    }
}

impl DebugRenderer {
    /// Creates a `DebugRenderer`.
    pub fn new() -> (r: DebugRenderer)
        ensures
            r == (DebugRenderer {  }),
    {
        DebugRenderer {  }
    }

    /// The visualization color of one intersection.
    fn visualize(&mut self, intersection: &Intersection) -> (r: Radiance)
        ensures
            r == spec_visualize(*intersection),
    {
        let brightness: i64 = fx::clamp(
            fx::sub(fx::ONE, fx::div(intersection.lambda, 589824)),
            0,
            fx::ONE,
        );
        let color: V3 = intersection.normal.scale(fx::HALF).add(
            V3 { x: fx::HALF, y: fx::HALF, z: fx::HALF },
        );
        Radiance {
            r: fx::mul(color.x, brightness),
            g: fx::mul(color.y, brightness),
            b: fx::mul(color.z, brightness),
        }
    }
}

impl Renderer for DebugRenderer {
    /// Always ready.
    open spec fn wf(&self) -> bool {
        true
    }

    /// The background on a miss, the visualization of the nearest hit
    /// otherwise.
    fn render<C: Camera>(
        &mut self,
        scene: &Scene,
        camera: &C,
        resolution: Resolution,
        target: Target,
    ) -> (res: Result<Radiance, RenderError>)
        ensures
            res is Ok,
            match spec_nearest(
                scene.objects@,
                camera.spec_primary(resolution, target),
                scene.objects@.len(),
            ) {
                None => res == Ok::<Radiance, RenderError>(scene.background),
                Some(p) => res == Ok::<Radiance, RenderError>(
                    spec_visualize(
                        spec_transform_intersection(
                            scene.objects@[p.0],
                            camera.spec_primary(resolution, target),
                            p.1,
                        ),
                    ),
                ),
            },
    {
        let ray = camera.primary(resolution, target);
        match scene.intersect(&ray) {
            None => Ok(scene.background()),
            Some(i) => Ok(self.visualize(&i.intersection)),
        }
    }
}

} // verus!
