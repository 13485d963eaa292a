//! An ideal diffusely reflective material.

use vstd::prelude::*;
use crate::geometry::Intersection;
use crate::lighting::{Albedo, Bsdf, Distribution, Effect};

verus! {

/// A perfectly rough reflector.
#[derive(Clone, Copy, Debug)]
pub struct Lambert {
    /// The surface reflectance.
    pub albedo: Albedo,
}

/// What `Lambert::shade` produces: a single cosine-weighted diffuse
/// reflection.
pub open spec fn spec_lambert_shade(lb: Lambert) -> Seq<Effect> {
    seq![Effect::DiffuseReflection(lb.albedo, Distribution::Cosine)]
}

impl Lambert {
    /// Creates a new `Lambert` material.
    pub fn new(albedo: Albedo) -> (m: Lambert)
        ensures
            m.albedo == albedo,
    {
        Lambert { albedo }
    }

    /// The scattering behavior: one diffuse reflection effect.
    pub fn shade(&self, _intersection: &Intersection) -> (b: Bsdf)
        ensures
            b.effects@ == spec_lambert_shade(*self),
    {
        let mut bsdf: Bsdf = Bsdf::new();
        bsdf.effects.push(Effect::DiffuseReflection(self.albedo, Distribution::Cosine));
        proof {
            assert(bsdf.effects@ =~= spec_lambert_shade(*self));
        }
        bsdf
    }
}

} // verus!
