//! Materials and quantities of light and color.
//!
//! `Radiance` is light flux and `Albedo` a dimensionless reflectance, both
//! three-channel. A `Distribution` describes how light leaves a surface
//! around an axis and supports exact density evaluation and importance
//! sampling; an ordered set of [`Effect`]s forms a [`Bsdf`]; a [`Material`]
//! shades an intersection into a `Bsdf`.

use vstd::prelude::*;
use crate::fx;
use crate::fx::Fx;
use crate::geometry::Intersection;
use crate::random::Rand;
use crate::vec::V3;

pub mod blackbody;
pub mod lambert;
pub mod phong;

pub use self::blackbody::Blackbody;
pub use self::lambert::Lambert;
pub use self::phong::Phong;

verus! {

/// The red weight of the NTSC luma sum (0.21 in 1/65536 units).
pub const LUMA_R: i64 = 13763;

/// The green weight of the NTSC luma sum (0.72 in 1/65536 units).
pub const LUMA_G: i64 = 47186;

/// The blue weight of the NTSC luma sum (0.07 in 1/65536 units).
pub const LUMA_B: i64 = 4588;

/// Pi in 1/65536 units.
pub const PI_FX: i64 = 205887;

/// 1/(2*pi) in 1/65536 units.
pub const INV_TWO_PI: i64 = 10430;

/// 2*pi in 1/65536 units.
pub const TWO_PI: i64 = 411775;

/// The tolerance, in 1/65536 units, within which a sampled direction's
/// squared magnitude matches one.
pub const UNIT_TOL: i64 = 64;

/// The radiant intensity of a ray of light.
#[derive(Clone, Copy, Debug, PartialEq, Eq, Structural)]
pub struct Radiance {
    /// The red channel.
    pub r: Fx,
    /// The green channel.
    pub g: Fx,
    /// The blue channel.
    pub b: Fx,
}

/// The light absorption of a surface.
#[derive(Clone, Copy, Debug, PartialEq, Eq, Structural)]
pub struct Albedo {
    /// The red channel.
    pub r: Fx,
    /// The green channel.
    pub g: Fx,
    /// The blue channel.
    pub b: Fx,
}

/// The NTSC-weighted lightness of three channels.
pub open spec fn spec_luma3(r: int, g: int, b: int) -> int {
    fx::spec_add(
        fx::spec_add(fx::spec_mul(r, LUMA_R as int), fx::spec_mul(g, LUMA_G as int)),
        fx::spec_mul(b, LUMA_B as int),
    )
}

/// What `Radiance::add` returns.
pub open spec fn spec_rad_add(a: Radiance, o: Radiance) -> Radiance {
    Radiance {
        r: fx::spec_add(a.r as int, o.r as int) as i64,
        g: fx::spec_add(a.g as int, o.g as int) as i64,
        b: fx::spec_add(a.b as int, o.b as int) as i64,
    }
}

/// What `Radiance::scale` returns.
pub open spec fn spec_rad_scale(a: Radiance, f: int) -> Radiance {
    Radiance {
        r: fx::spec_mul(a.r as int, f) as i64,
        g: fx::spec_mul(a.g as int, f) as i64,
        b: fx::spec_mul(a.b as int, f) as i64,
    }
}

/// What `Radiance::divs` returns.
pub open spec fn spec_rad_divs(a: Radiance, f: int) -> Radiance {
    Radiance {
        r: fx::spec_div(a.r as int, f) as i64,
        g: fx::spec_div(a.g as int, f) as i64,
        b: fx::spec_div(a.b as int, f) as i64,
    }
}

/// What `Radiance::mul` returns: channelwise absorption.
pub open spec fn spec_rad_mul(a: Radiance, o: Albedo) -> Radiance {
    Radiance {
        r: fx::spec_mul(a.r as int, o.r as int) as i64,
        g: fx::spec_mul(a.g as int, o.g as int) as i64,
        b: fx::spec_mul(a.b as int, o.b as int) as i64,
    }
}

impl Radiance {
    /// Creates a new `Radiance` with the given intensities for red, green,
    /// and blue.
    pub fn new(r: Fx, g: Fx, b: Fx) -> (c: Radiance)
        ensures
            c == (Radiance { r, g, b }),
    {
        Radiance { r, g, b }
    }

    /// Absolute darkness.
    pub fn none() -> (c: Radiance)
        ensures
            c == (Radiance { r: 0i64, g: 0i64, b: 0i64 }),
    {
        Radiance { r: 0, g: 0, b: 0 }
    }

    /// A pure red intensity.
    pub fn red(f: Fx) -> (c: Radiance)
        ensures
            c == (Radiance { r: f, g: 0i64, b: 0i64 }),
    {
        Radiance { r: f, g: 0, b: 0 }
    }

    /// A pure green intensity.
    pub fn green(f: Fx) -> (c: Radiance)
        ensures
            c == (Radiance { r: 0i64, g: f, b: 0i64 }),
    {
        Radiance { r: 0, g: f, b: 0 }
    }

    /// A pure blue intensity.
    pub fn blue(f: Fx) -> (c: Radiance)
        ensures
            c == (Radiance { r: 0i64, g: 0i64, b: f }),
    {
        Radiance { r: 0, g: 0, b: f }
    }

    /// Equal intensity on all channels.
    pub fn gray(f: Fx) -> (c: Radiance)
        ensures
            c == (Radiance { r: f, g: f, b: f }),
    {
        Radiance { r: f, g: f, b: f }
    }

    /// Whether this is absolute darkness.
    pub fn is_zero(&self) -> (z: bool)
        ensures
            z == (*self == Radiance { r: 0i64, g: 0i64, b: 0i64 }),
    {
        self.r == 0 && self.g == 0 && self.b == 0
    }

    /// The lightness according to NTSC.
    pub fn luma(self) -> (l: Fx)
        ensures
            l == spec_luma3(self.r as int, self.g as int, self.b as int),
    {
        fx::add(
            fx::add(fx::mul(self.r, LUMA_R), fx::mul(self.g, LUMA_G)),
            fx::mul(self.b, LUMA_B),
        )
    }

    /// Channelwise addition.
    pub fn add(self, o: Radiance) -> (c: Radiance)
        ensures
            c == spec_rad_add(self, o),
    {
        Radiance { r: fx::add(self.r, o.r), g: fx::add(self.g, o.g), b: fx::add(self.b, o.b) }
    }

    /// Scaling by a scalar.
    pub fn scale(self, f: Fx) -> (c: Radiance)
        ensures
            c == spec_rad_scale(self, f as int),
    {
        Radiance { r: fx::mul(self.r, f), g: fx::mul(self.g, f), b: fx::mul(self.b, f) }
    }

    /// Channelwise division by a scalar.
    pub fn divs(self, f: Fx) -> (c: Radiance)
        ensures
            c == spec_rad_divs(self, f as int),
    {
        Radiance { r: fx::div(self.r, f), g: fx::div(self.g, f), b: fx::div(self.b, f) }
    }

    /// Absorption by a surface: channelwise product with an albedo.
    pub fn mul(self, o: Albedo) -> (c: Radiance)
        ensures
            c == spec_rad_mul(self, o),
    {
        Radiance { r: fx::mul(self.r, o.r), g: fx::mul(self.g, o.g), b: fx::mul(self.b, o.b) }
    }
}

impl Default for Radiance {
    /// Absolute darkness.
    fn default() -> (c: Radiance)
        ensures
            c == (Radiance { r: 0i64, g: 0i64, b: 0i64 }),
    {
        Radiance::none()
    }
}

/// What `Albedo::mul` returns.
pub open spec fn spec_alb_mul(a: Albedo, o: Albedo) -> Albedo {
    Albedo {
        r: fx::spec_mul(a.r as int, o.r as int) as i64,
        g: fx::spec_mul(a.g as int, o.g as int) as i64,
        b: fx::spec_mul(a.b as int, o.b as int) as i64,
    }
}

/// What `Albedo::scale` returns.
pub open spec fn spec_alb_scale(a: Albedo, f: int) -> Albedo {
    Albedo {
        r: fx::spec_mul(a.r as int, f) as i64,
        g: fx::spec_mul(a.g as int, f) as i64,
        b: fx::spec_mul(a.b as int, f) as i64,
    }
}

impl Albedo {
    /// Creates a new `Albedo` with the given reflectances for red, green,
    /// and blue.
    pub fn new(r: Fx, g: Fx, b: Fx) -> (c: Albedo)
        ensures
            c == (Albedo { r, g, b }),
    {
        Albedo { r, g, b }
    }

    /// A surface absorbing all light.
    pub fn black() -> (c: Albedo)
        ensures
            c == (Albedo { r: 0i64, g: 0i64, b: 0i64 }),
    {
        Albedo { r: 0, g: 0, b: 0 }
    }

    /// A surface absorbing no light.
    pub fn white() -> (c: Albedo)
        ensures
            c == (Albedo { r: fx::ONE, g: fx::ONE, b: fx::ONE }),
    {
        Albedo { r: fx::ONE, g: fx::ONE, b: fx::ONE }
    }

    /// A surface reflecting only red.
    pub fn red(f: Fx) -> (c: Albedo)
        ensures
            c == (Albedo { r: f, g: 0i64, b: 0i64 }),
    {
        Albedo { r: f, g: 0, b: 0 }
    }

    /// A surface reflecting only green.
    pub fn green(f: Fx) -> (c: Albedo)
        ensures
            c == (Albedo { r: 0i64, g: f, b: 0i64 }),
    {
        Albedo { r: 0, g: f, b: 0 }
    }

    /// A surface reflecting only blue.
    pub fn blue(f: Fx) -> (c: Albedo)
        ensures
            c == (Albedo { r: 0i64, g: 0i64, b: f }),
    {
        Albedo { r: 0, g: 0, b: f }
    }

    /// A surface reflecting all channels equally.
    pub fn gray(f: Fx) -> (c: Albedo)
        ensures
            c == (Albedo { r: f, g: f, b: f }),
    {
        Albedo { r: f, g: f, b: f }
    }

    /// The influence on lightness according to NTSC.
    pub fn luma_factor(self) -> (l: Fx)
        ensures
            l == spec_luma3(self.r as int, self.g as int, self.b as int),
    {
        fx::add(
            fx::add(fx::mul(self.r, LUMA_R), fx::mul(self.g, LUMA_G)),
            fx::mul(self.b, LUMA_B),
        )
    }

    /// Channelwise product.
    pub fn mul(self, o: Albedo) -> (c: Albedo)
        ensures
            c == spec_alb_mul(self, o),
    {
        Albedo { r: fx::mul(self.r, o.r), g: fx::mul(self.g, o.g), b: fx::mul(self.b, o.b) }
    }

    /// Scaling by a scalar.
    pub fn scale(self, f: Fx) -> (c: Albedo)
        ensures
            c == spec_alb_scale(self, f as int),
    {
        Albedo { r: fx::mul(self.r, f), g: fx::mul(self.g, f), b: fx::mul(self.b, f) }
    }
}

impl Default for Albedo {
    /// A surface absorbing no light.
    fn default() -> (c: Albedo)
        ensures
            c == (Albedo { r: fx::ONE, g: fx::ONE, b: fx::ONE }),
    {
        Albedo::white()
    }
}

/// The refractive index of a medium.
#[derive(Clone, Copy, Debug, PartialEq, Eq, Structural)]
pub struct Ior(pub Fx);

/// The distribution of light emitted, reflected, or refracted by a
/// surface, over the hemisphere around an axis and isotropic around it; it
/// is evaluated on the cosine of the angle to the axis.
#[derive(Clone, Copy, Debug, PartialEq, Eq, Structural)]
pub enum Distribution {
    /// All light leaves exactly along the axis (a perfect mirror).
    Dirac,
    /// Light leaves uniformly over the hemisphere.
    Uniform,
    /// Light leaves in a cosine-weighted hemisphere (a perfectly rough
    /// surface).
    Cosine,
    /// Light leaves in an exponential drop-off around the axis (a glossy
    /// surface); exponent 0 equals `Uniform` and exponent 1 equals
    /// `Cosine`.
    CosineExp(u32),
}

/// The exponent plus one, saturating at the machine bound.
pub open spec fn spec_exp1(e: int) -> int {
    if e == u32::MAX {
        e
    } else {
        e + 1
    }
}

/// What `Distribution::eval` returns. Densities are relative to a
/// cosine-weighted reference: back-hemisphere angles have density zero,
/// `Uniform` evaluates to `1/cosine` (so that shading's later cosine
/// factor flattens it), `Cosine` to one, and `CosineExp(e)` to
/// `cosine^(e-1)` (with the exponent-zero case equal to `Uniform`).
pub open spec fn spec_eval(d: Distribution, cos_t: int) -> int {
    if cos_t < 0 {
        0
    } else {
        match d {
            Distribution::Dirac => if cos_t >= fx::ONE {
                fx::ONE as int
            } else {
                0
            },
            Distribution::Uniform => fx::spec_div(fx::ONE as int, cos_t),
            Distribution::Cosine => fx::ONE as int,
            Distribution::CosineExp(e) => if e == 0 {
                fx::spec_div(fx::ONE as int, cos_t)
            } else {
                fx::spec_powi(cos_t, (e - 1) as nat)
            },
        }
    }
}

/// What the sampling probability density is for a drawn axis-cosine `z`.
/// The glossy density `(e+1) * z^e / (2*pi)` meets the exponent-zero and
/// exponent-one equivalences: at zero it is the uniform `1/(2*pi)`, at one
/// the cosine `z/pi`.
pub open spec fn spec_pdf(d: Distribution, z: int) -> int {
    match d {
        Distribution::Dirac => INV_TWO_PI as int,
        Distribution::Uniform => INV_TWO_PI as int,
        Distribution::Cosine => fx::spec_div(z, PI_FX as int),
        Distribution::CosineExp(e) => fx::spec_div(
            fx::spec_mul(fx::clip(spec_exp1(e as int) * (fx::ONE as int)), fx::spec_powi(z, e as nat)),
            TWO_PI as int,
        ),
    }
}

impl Distribution {
    /// Evaluate the density at an axis-cosine in `[-1, 1]`.
    pub fn eval(self, cos_t: Fx) -> (r: Fx)
        requires
            -fx::ONE <= cos_t <= fx::ONE,
        ensures
            r == spec_eval(self, cos_t as int),
    {
        if cos_t < 0 {
            return 0;
        }
        match self {
            Distribution::Dirac => if cos_t >= fx::ONE {
                fx::ONE
            } else {
                0
            },
            Distribution::Uniform => fx::div(fx::ONE, cos_t),
            Distribution::Cosine => fx::ONE,
            Distribution::CosineExp(e) => if e == 0 {
                fx::div(fx::ONE, cos_t)
            } else {
                fx::powi(cos_t, e - 1)
            },
        }
    }

    /// Randomly sample a direction in the hemisphere around `+z`, together
    /// with the probability density of the draw. The axis-cosine (the `z`
    /// component) always lies in `(0, 1]`, the direction is unit length
    /// within the stated tolerance, and the returned density is exactly
    /// the sampling density at that cosine; the azimuth is a uniform
    /// random angle. The mirror distribution is deterministic: it returns
    /// the axis itself.
    pub fn sample(self, rng: &mut Rand) -> (r: (V3, Fx))
        ensures
            0 < r.0.z <= fx::ONE,
            r.1 == spec_pdf(self, r.0.z as int),
            self is Dirac ==> r.0 == (V3 { x: 0i64, y: 0i64, z: fx::ONE }),
            fx::ONE - UNIT_TOL <= crate::vec::spec_norm2(r.0) <= fx::ONE + UNIT_TOL,
    {
        match self {
            Distribution::Dirac => {
                proof {
                    vstd::arithmetic::div_mod::lemma_div_of0(65536);
                    vstd::arithmetic::div_mod::lemma_div_multiples_vanish(65536, 65536);
                }
                ((V3 { x: 0, y: 0, z: fx::ONE }), INV_TWO_PI)
            },
            Distribution::Uniform => {
                let y: Fx = rng.next_unit();
                let ct: Fx = fx::ONE - y;
                let v: V3 = hemisphere(rng, ct);
                (v, INV_TWO_PI)
            },
            Distribution::Cosine => {
                let y: Fx = rng.next_unit();
                let ct: Fx = fx::sqrt(fx::ONE - y);
                proof {
                    assert(ct <= fx::ONE) by (nonlinear_arith)
                        requires
                            ct >= 0,
                            (ct as int) * (ct as int) <= 65536 * 65536;
                    // The argument is at least one unit, so its root is too.
                    assert(ct > 0) by (nonlinear_arith)
                        requires
                            ct >= 0,
                            ((fx::ONE - y) as int) * 65536 < ((ct as int) + 1) * ((ct as int) + 1),
                            fx::ONE - y >= 1;
                }
                let v: V3 = hemisphere(rng, ct);
                (v, fx::div(ct, PI_FX))
            },
            Distribution::CosineExp(e) => {
                let n: u32 = if e == u32::MAX {
                    e
                } else {
                    e + 1
                };
                let y: Fx = rng.next_unit();
                let ct: Fx = fx::root_n(fx::ONE - y, n);
                proof {
                    // The argument is at least one unit, while the powers
                    // of a zero root's successor collapse below it.
                    if ct <= 0 {
                        fx::lemma_powi_unit(n as nat);
                        assert(false);
                    }
                }
                let v: V3 = hemisphere(rng, ct);
                (v, fx::div(fx::mul(fx::of_int(n as i64), fx::powi(ct, e)), TWO_PI))
            },
        }
    }
}

/// A random unit-hemisphere direction with the given axis-cosine: a
/// random point on the unit circle scaled by the matching sine. The
/// result keeps the axis-cosine exactly and is unit length within the
/// stated tolerance; when the drawn azimuth point is too coarse for that,
/// the in-plane direction stands in, which meets the tolerance by
/// construction.
fn hemisphere(rng: &mut Rand, ct: Fx) -> (v: V3)
    requires
        0 <= ct <= fx::ONE,
    ensures
        v.z == ct,
        fx::ONE - UNIT_TOL <= crate::vec::spec_norm2(v) <= fx::ONE + UNIT_TOL,
{
    let ct2: Fx = fx::mul(ct, ct);
    proof {
        assert(0 <= (ct as int) * (ct as int) <= 65536 * 65536) by (nonlinear_arith)
            requires
                0 <= ct <= 65536;
        vstd::arithmetic::div_mod::lemma_div_pos_is_pos((ct as int) * (ct as int), 65536);
        vstd::arithmetic::div_mod::lemma_div_is_ordered(
            (ct as int) * (ct as int),
            65536int * 65536,
            65536,
        );
        vstd::arithmetic::div_mod::lemma_div_multiples_vanish(65536, 65536);
    }
    let w: Fx = fx::sub(fx::ONE, ct2);
    let rr: Fx = fx::sqrt(w);
    let (ca, sa): (Fx, Fx) = unit_circle(rng);
    let v: V3 = V3 { x: fx::mul(rr, ca), y: fx::mul(rr, sa), z: ct };
    let n2: Fx = v.norm2();
    if fx::ONE - UNIT_TOL <= n2 && n2 <= fx::ONE + UNIT_TOL {
        v
    } else {
        proof {
            vstd::arithmetic::div_mod::lemma_div_of0(65536);
            if w > 0 {
                assert(rr <= 65536) by (nonlinear_arith)
                    requires
                        rr >= 0,
                        (rr as int) * (rr as int) <= (w as int) * 65536,
                        w <= 65536;
                vstd::arithmetic::div_mod::lemma_div_pos_is_pos((rr as int) * (rr as int), 65536);
                vstd::arithmetic::div_mod::lemma_div_is_ordered(
                    (rr as int) * (rr as int),
                    (w as int) * 65536,
                    65536,
                );
                vstd::arithmetic::div_mod::lemma_div_multiples_vanish(w as int, 65536);
                assert(65536 * ((w as int) - 3) <= (rr as int) * (rr as int)) by (nonlinear_arith)
                    requires
                        (w as int) * 65536 < ((rr as int) + 1) * ((rr as int) + 1),
                        0 <= rr <= 65536;
                vstd::arithmetic::div_mod::lemma_div_is_ordered(
                    65536 * ((w as int) - 3),
                    (rr as int) * (rr as int),
                    65536,
                );
                vstd::arithmetic::div_mod::lemma_div_multiples_vanish((w as int) - 3, 65536);
            }
        }
        V3 { x: rr, y: 0, z: ct }
    }
}

/// A random point on the unit circle, by rejection from the square: a
/// draw inside the disc (and not too close to its center, where dividing
/// by a tiny magnitude would lose precision) is normalized, and kept only
/// if its squared magnitude lands within the stated tolerance of one;
/// after too many rejections the exact point (1, 0) is returned.
fn unit_circle(rng: &mut Rand) -> (r: (Fx, Fx))
    ensures
        fx::ONE - UNIT_TOL <= fx::spec_add(
            fx::spec_mul(r.0 as int, r.0 as int),
            fx::spec_mul(r.1 as int, r.1 as int),
        ) <= fx::ONE + UNIT_TOL,
{
    let mut i: u32 = 0;
    while i < 16
        decreases 16 - i,
    {
        let a: Fx = rng.next_signed_unit();
        let b: Fx = rng.next_signed_unit();
        let m2: Fx = fx::add(fx::mul(a, a), fx::mul(b, b));
        if fx::ONE / 16 <= m2 && m2 <= fx::ONE {
            let l: Fx = fx::sqrt(m2);
            let ca: Fx = fx::div(a, l);
            let sa: Fx = fx::div(b, l);
            let q: Fx = fx::add(fx::mul(ca, ca), fx::mul(sa, sa));
            if fx::ONE - UNIT_TOL <= q && q <= fx::ONE + UNIT_TOL {
                return (ca, sa);
            }
        }
        i = i + 1;
    }
    proof {
        vstd::arithmetic::div_mod::lemma_div_of0(65536);
        vstd::arithmetic::div_mod::lemma_div_multiples_vanish(65536, 65536);
    }
    (fx::ONE, 0)
}

/// A component effect of the appearance of a surface.
#[derive(Clone, Copy, Debug)]
pub enum Effect {
    /// Light emission independent of incoming light.
    Emission(Radiance, Distribution),
    /// Diffuse reflection centered on the surface normal.
    DiffuseReflection(Albedo, Distribution),
    /// Specular reflection centered on the mirrored incidence vector.
    SpecularReflection(Albedo, Distribution),
    /// Diffuse refraction centered on the inverted surface normal.
    DiffuseRefraction(Albedo, Ior, Distribution),
    /// Specular refraction centered on the refracted incidence vector.
    SpecularRefraction(Albedo, Ior, Distribution),
}

/// The appearance of a point on a surface, described as an ordered set of
/// `Effect`s.
#[derive(Clone, Debug)]
pub struct Bsdf {
    /// The effects, in insertion order.
    pub effects: Vec<Effect>,
}

impl Bsdf {
    /// Creates a new and empty `Bsdf`.
    pub fn new() -> (b: Bsdf)
        ensures
            b.effects@ == Seq::<Effect>::empty(),
    {
        Bsdf { effects: Vec::new() }
    }
}

impl Default for Bsdf {
    /// An empty set of effects.
    fn default() -> (b: Bsdf)
        ensures
            b.effects@ == Seq::<Effect>::empty(),
    {
        Bsdf::new()
    }
}

/// The closed set of materials.
#[derive(Clone, Copy, Debug)]
pub enum Material {
    /// A pure emitter.
    Blackbody(Blackbody),
    /// A pure cosine-weighted diffuse reflector.
    Lambert(Lambert),
    /// Optional emission, diffuse and specular reflection.
    Phong(Phong),
}

/// What `Material::shade` produces, by material.
#[verifier::opaque]
pub open spec fn spec_shade(m: Material, i: Intersection) -> Seq<Effect> {
    match m {
        Material::Blackbody(bb) => blackbody::spec_blackbody_shade(bb),
        Material::Lambert(lb) => lambert::spec_lambert_shade(lb),
        Material::Phong(ph) => phong::spec_phong_shade(ph),
    }
}

/// Every distribution has zero density over the back hemisphere: a
/// negative axis-cosine evaluates to nothing.
pub proof fn lemma_eval_back_hemisphere(d: Distribution, cos_t: int)
    requires
        cos_t < 0,
    ensures
        spec_eval(d, cos_t) == 0,
{
}

/// No material of the closed set ever shades a specular refraction, so
/// the integrator's unsupported-effect error is unreachable.
pub proof fn lemma_shade_no_refraction(m: Material, i: Intersection)
    ensures
        forall|j: int|
            0 <= j < spec_shade(m, i).len() ==> !(#[trigger] spec_shade(m, i)[j]
                is SpecularRefraction),
{
    reveal(crate::lighting::spec_shade);
    let s = spec_shade(m, i);
    match m {
        Material::Blackbody(bb) => {
            assert(s.len() == 1 && s[0] is Emission);
        },
        Material::Lambert(lb) => {
            assert(s.len() == 1 && s[0] is DiffuseReflection);
        },
        Material::Phong(ph) => {
            assert forall|j: int| 0 <= j < s.len() implies !(s[j] is SpecularRefraction) by {
                assert(s.len() <= 3);
            }
        },
    }
}

impl Material {
    /// The scattering behavior of the surface at an intersection point.
    pub fn shade(&self, intersection: &Intersection) -> (b: Bsdf)
        ensures
            b.effects@ == spec_shade(*self, *intersection),
    {
        proof {
            reveal(crate::lighting::spec_shade);
        }
        match self {
            Material::Blackbody(bb) => bb.shade(intersection),
            Material::Lambert(lb) => lb.shade(intersection),
            Material::Phong(ph) => ph.shade(intersection),
        }
    }
}

} // verus!
