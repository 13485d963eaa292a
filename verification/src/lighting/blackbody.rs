//! A pure emitter of light.

use vstd::prelude::*;
use crate::geometry::Intersection;
use crate::lighting::{Bsdf, Distribution, Effect, Radiance};

verus! {

/// A material that only emits.
#[derive(Clone, Copy, Debug)]
pub struct Blackbody {
    /// The emitted radiance.
    pub radiance: Radiance,
}

/// What `Blackbody::shade` produces: a single cosine-weighted emission.
pub open spec fn spec_blackbody_shade(bb: Blackbody) -> Seq<Effect> {
    seq![Effect::Emission(bb.radiance, Distribution::Cosine)]
}

impl Blackbody {
    /// Creates a new `Blackbody` material.
    pub fn new(radiance: Radiance) -> (m: Blackbody)
        ensures
            m.radiance == radiance,
    {
        Blackbody { radiance }
    }

    /// The scattering behavior: one emission effect.
    pub fn shade(&self, _intersection: &Intersection) -> (b: Bsdf)
        ensures
            b.effects@ == spec_blackbody_shade(*self),
    {
        let mut bsdf: Bsdf = Bsdf::new();
        bsdf.effects.push(Effect::Emission(self.radiance, Distribution::Cosine));
        proof {
            assert(bsdf.effects@ =~= spec_blackbody_shade(*self));
        }
        bsdf
    }
}

} // verus!
