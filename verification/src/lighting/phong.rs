//! A combination of emission, diffuse, and specular reflection.

use vstd::prelude::*;
use crate::geometry::Intersection;
use crate::lighting::{Albedo, Bsdf, Distribution, Effect, Radiance};

verus! {

/// A material with optional emission, diffuse and specular components;
/// each is shaded only when it is nonzero.
#[derive(Clone, Copy, Debug)]
pub struct Phong {
    /// The emitted radiance.
    pub emission: Radiance,
    /// The diffuse reflection color.
    pub diffuse: Albedo,
    /// The specular reflection color.
    pub specular: Albedo,
    /// The specular glossiness exponent.
    pub shininess: u32,
}

/// What `Phong::shade` produces: emission, diffuse and specular effects in
/// that order, each present exactly when its component is nonzero.
pub open spec fn spec_phong_shade(p: Phong) -> Seq<Effect> {
    let s0 = Seq::<Effect>::empty();
    let s1 = if p.emission != (Radiance { r: 0i64, g: 0i64, b: 0i64 }) {
        s0.push(Effect::Emission(p.emission, Distribution::Cosine))
    } else {
        s0
    };
    let s2 = if p.diffuse != (Albedo { r: 0i64, g: 0i64, b: 0i64 }) {
        s1.push(Effect::DiffuseReflection(p.diffuse, Distribution::Cosine))
    } else {
        s1
    };
    if p.specular != (Albedo { r: 0i64, g: 0i64, b: 0i64 }) {
        s2.push(Effect::SpecularReflection(p.specular, Distribution::CosineExp(p.shininess)))
    } else {
        s2
    }
}

impl Phong {
    /// Creates a new `Phong` material with no emission, diffuse, or
    /// specular reflection.
    pub fn new() -> (m: Phong)
        ensures
            m.emission == (Radiance { r: 0i64, g: 0i64, b: 0i64 }),
            m.diffuse == (Albedo { r: 0i64, g: 0i64, b: 0i64 }),
            m.specular == (Albedo { r: 0i64, g: 0i64, b: 0i64 }),
            m.shininess == 0u32,
    {
        Phong {
            emission: Radiance::none(),
            diffuse: Albedo::black(),
            specular: Albedo::black(),
            shininess: 0,
        }
    }

    /// Sets the emission component.
    pub fn glow(self, color: Radiance) -> (m: Phong)
        ensures
            m == (Phong { emission: color, ..self }),
    {
        let mut mat = self;
        mat.emission = color;
        mat
    }

    /// Sets the diffuse reflection color.
    pub fn color(self, color: Albedo) -> (m: Phong)
        ensures
            m == (Phong { diffuse: color, ..self }),
    {
        let mut mat = self;
        mat.diffuse = color;
        mat
    }

    /// Sets the specular reflection color and exponent.
    pub fn highlight(self, color: Albedo, shininess: u32) -> (m: Phong)
        ensures
            m == (Phong { specular: color, shininess, ..self }),
    {
        let mut mat = self;
        mat.specular = color;
        mat.shininess = shininess;
        mat
    }

    /// The scattering behavior: the nonzero components, in order.
    pub fn shade(&self, _intersection: &Intersection) -> (b: Bsdf)
        ensures
            b.effects@ == spec_phong_shade(*self),
    {
        let mut bsdf: Bsdf = Bsdf::new();

        if !(self.emission == Radiance::none()) {
            bsdf.effects.push(Effect::Emission(self.emission, Distribution::Cosine));
        }

        if !(self.diffuse == Albedo::black()) {
            bsdf.effects.push(Effect::DiffuseReflection(self.diffuse, Distribution::Cosine));
        }

        if !(self.specular == Albedo::black()) {
            bsdf.effects.push(
                Effect::SpecularReflection(self.specular, Distribution::CosineExp(self.shininess)),
            );
        }

        proof {
            assert(bsdf.effects@ =~= spec_phong_shade(*self));
        }
        bsdf
    }
}

impl Default for Phong {
    /// A material with no components set.
    fn default() -> (m: Phong)
        ensures
            m.emission == (Radiance { r: 0i64, g: 0i64, b: 0i64 }),
            m.diffuse == (Albedo { r: 0i64, g: 0i64, b: 0i64 }),
            m.specular == (Albedo { r: 0i64, g: 0i64, b: 0i64 }),
            m.shininess == 0u32,
    {
        Phong::new()
    }
}

} // verus!
