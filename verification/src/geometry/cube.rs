//! Axis-aligned cubes and the slab intersection method.

use vstd::prelude::*;
use crate::fx;
use crate::fx::Fx;
use crate::geometry::{spec_at, Intersection, Ray};
use crate::vec::{spec_vadd, spec_vneg, spec_vsub, V3};

verus! {

/// An axis-aligned cube (transformed extrinsically by an `Object`, never
/// intrinsically rotated).
#[derive(Clone, Copy, Debug, PartialEq, Eq, Structural)]
pub struct Cube {
    /// The cube's center point.
    pub center: V3,
    /// The cube's "radius": it extends from `center - radius` to
    /// `center + radius`.
    pub radius: V3,
}

/// Elementwise fixed-point division; a zero divisor saturates to a signed
/// infinity, standing in for the unbounded slab of an axis the ray runs
/// parallel to.
pub open spec fn spec_div_elem(a: V3, b: V3) -> V3 {
    V3 {
        x: fx::spec_div(a.x as int, b.x as int) as i64,
        y: fx::spec_div(a.y as int, b.y as int) as i64,
        z: fx::spec_div(a.z as int, b.z as int) as i64,
    }
}

/// Keep whichever of the accumulator and the candidate lies farther along
/// the ray (the candidate only on a strict improvement).
pub open spec fn spec_farther(acc: (int, V3), v: int, n: V3) -> (int, V3) {
    if v > acc.0 {
        (v, n)
    } else {
        acc
    }
}

/// Keep whichever lies nearer along the ray.
pub open spec fn spec_nearer(acc: (int, V3), v: int, n: V3) -> (int, V3) {
    if v < acc.0 {
        (v, n)
    } else {
        acc
    }
}

/// The slab entry point of one axis: the nearer of the two face distances,
/// paired with the face normal (a tie selects the far face, as the strict
/// comparison does).
pub open spec fn spec_entry(a: int, b: int, axis: V3) -> (int, V3) {
    if a < b {
        (a, spec_vneg(axis))
    } else {
        (b, axis)
    }
}

/// The slab exit point of one axis.
pub open spec fn spec_exit(a: int, b: int, axis: V3) -> (int, V3) {
    if a > b {
        (a, spec_vneg(axis))
    } else {
        (b, axis)
    }
}

/// The unit vector of axis `x`.
pub open spec fn spec_axis_x() -> V3 {
    V3 { x: fx::ONE as i64, y: 0i64, z: 0i64 }
}

/// The unit vector of axis `y`.
pub open spec fn spec_axis_y() -> V3 {
    V3 { x: 0i64, y: fx::ONE as i64, z: 0i64 }
}

/// The unit vector of axis `z`.
pub open spec fn spec_axis_z() -> V3 {
    V3 { x: 0i64, y: 0i64, z: fx::ONE as i64 }
}

/// What `Cube::intersect` returns, by the slab method: for each axis the
/// entry and exit distances of its slab; the latest entry and the earliest
/// exit, each tracking the normal of the face that produced it; no hit when
/// the exit precedes the entry; the origin is inside the cube when the
/// entry is nonpositive, in which case the exit is selected and the normal
/// flipped; nonpositive selected distances are rejected.
pub open spec fn spec_cube_intersect(c: Cube, ray: Ray) -> Option<Intersection> {
    let vmin = spec_div_elem(spec_vsub(spec_vsub(c.center, c.radius), ray.origin), ray.direction);
    let vmax = spec_div_elem(spec_vsub(spec_vadd(c.center, c.radius), ray.origin), ray.direction);
    let lin = spec_farther(
        spec_farther(
            spec_farther(
                (fx::MIN as int, V3 { x: 0i64, y: 0i64, z: 0i64 }),
                spec_entry(vmin.x as int, vmax.x as int, spec_axis_x()).0,
                spec_entry(vmin.x as int, vmax.x as int, spec_axis_x()).1,
            ),
            spec_entry(vmin.y as int, vmax.y as int, spec_axis_y()).0,
            spec_entry(vmin.y as int, vmax.y as int, spec_axis_y()).1,
        ),
        spec_entry(vmin.z as int, vmax.z as int, spec_axis_z()).0,
        spec_entry(vmin.z as int, vmax.z as int, spec_axis_z()).1,
    );
    let lout = spec_nearer(
        spec_nearer(
            spec_nearer(
                (fx::MAX as int, V3 { x: 0i64, y: 0i64, z: 0i64 }),
                spec_exit(vmin.x as int, vmax.x as int, spec_axis_x()).0,
                spec_exit(vmin.x as int, vmax.x as int, spec_axis_x()).1,
            ),
            spec_exit(vmin.y as int, vmax.y as int, spec_axis_y()).0,
            spec_exit(vmin.y as int, vmax.y as int, spec_axis_y()).1,
        ),
        spec_exit(vmin.z as int, vmax.z as int, spec_axis_z()).0,
        spec_exit(vmin.z as int, vmax.z as int, spec_axis_z()).1,
    );
    if lout.0 < lin.0 {
        None
    } else {
        let inside = lin.0 <= 0;
        let lambda = if inside {
            lout.0
        } else {
            lin.0
        };
        let face = if inside {
            lout.1
        } else {
            lin.1
        };
        if lambda <= 0 {
            None
        } else {
            Some(
                Intersection {
                    position: spec_at(ray, lambda),
                    normal: if inside {
                        spec_vneg(face)
                    } else {
                        face
                    },
                    lambda: lambda as i64,
                    inside,
                },
            )
        }
    }
}

/// A ray that starts strictly beyond one of the cube's slabs and whose
/// direction runs strictly away from that slab never intersects the cube
/// (for a cube of nonnegative extents): on that axis both face distances
/// lie behind the origin, so the earliest exit does too, and the hit is
/// rejected whether or not the entry precedes it.
pub proof fn lemma_cube_miss(c: Cube, ray: Ray)
    requires
        c.radius.x >= 0,
        c.radius.y >= 0,
        c.radius.z >= 0,
        ({
            let a = spec_vsub(spec_vsub(c.center, c.radius), ray.origin);
            let b = spec_vsub(spec_vadd(c.center, c.radius), ray.origin);
            let d = ray.direction;
            ||| (a.x > 0 && d.x < 0)
            ||| (b.x < 0 && d.x > 0)
            ||| (a.y > 0 && d.y < 0)
            ||| (b.y < 0 && d.y > 0)
            ||| (a.z > 0 && d.z < 0)
            ||| (b.z < 0 && d.z > 0)
        }),
    ensures
        spec_cube_intersect(c, ray) is None,
{
    let a = spec_vsub(spec_vsub(c.center, c.radius), ray.origin);
    let b = spec_vsub(spec_vadd(c.center, c.radius), ray.origin);
    let d = ray.direction;
    let vmin = spec_div_elem(a, d);
    let vmax = spec_div_elem(b, d);
    fx::lemma_div_sign(a.x as int, d.x as int);
    fx::lemma_div_sign(b.x as int, d.x as int);
    fx::lemma_div_sign(a.y as int, d.y as int);
    fx::lemma_div_sign(b.y as int, d.y as int);
    fx::lemma_div_sign(a.z as int, d.z as int);
    fx::lemma_div_sign(b.z as int, d.z as int);
    if a.x > 0 && d.x < 0 {
        assert(b.x >= a.x);
        assert(vmin.x <= 0 && vmax.x <= 0);
    } else if b.x < 0 && d.x > 0 {
        assert(a.x <= b.x);
        assert(vmin.x <= 0 && vmax.x <= 0);
    } else if a.y > 0 && d.y < 0 {
        assert(b.y >= a.y);
        assert(vmin.y <= 0 && vmax.y <= 0);
    } else if b.y < 0 && d.y > 0 {
        assert(a.y <= b.y);
        assert(vmin.y <= 0 && vmax.y <= 0);
    } else if a.z > 0 && d.z < 0 {
        assert(b.z >= a.z);
        assert(vmin.z <= 0 && vmax.z <= 0);
    } else {
        assert(a.z <= b.z);
        assert(vmin.z <= 0 && vmax.z <= 0);
    }
}

impl Cube {
    /// Creates a `Cube` of size `dimensions`, centered on `center`; its
    /// radius is half the dimensions.
    pub fn new(center: V3, dimensions: V3) -> (r: Cube)
        ensures
            r.center == center,
            r.radius == spec_div_elem(
                dimensions,
                V3 { x: 131072i64, y: 131072i64, z: 131072i64 },
            ),
    {
        let two: Fx = fx::of_int(2);
        Cube { center, radius: div_elem(dimensions, V3 { x: two, y: two, z: two }) }
    }

    /// The nearest intersection with `ray`, if any.
    pub fn intersect(&self, ray: &Ray) -> (r: Option<Intersection>)
        ensures
            r == spec_cube_intersect(*self, *ray),
    {
        let vmin: V3 = div_elem(self.center.sub(self.radius).sub(ray.origin), ray.direction);
        let vmax: V3 = div_elem(self.center.add(self.radius).sub(ray.origin), ray.direction);

        let ax: V3 = V3 { x: fx::ONE, y: 0, z: 0 };
        let ay: V3 = V3 { x: 0, y: fx::ONE, z: 0 };
        let az: V3 = V3 { x: 0, y: 0, z: fx::ONE };

        let ex: (Fx, V3) = entry(vmin.x, vmax.x, ax);
        let ey: (Fx, V3) = entry(vmin.y, vmax.y, ay);
        let ez: (Fx, V3) = entry(vmin.z, vmax.z, az);
        let lin: (Fx, V3) = farther(farther(farther((fx::MIN, V3::zero()), ex), ey), ez);

        let qx: (Fx, V3) = exit(vmin.x, vmax.x, ax);
        let qy: (Fx, V3) = exit(vmin.y, vmax.y, ay);
        let qz: (Fx, V3) = exit(vmin.z, vmax.z, az);
        let lout: (Fx, V3) = nearer(nearer(nearer((fx::MAX, V3::zero()), qx), qy), qz);

        if lout.0 < lin.0 {
            return None;
        }

        let inside: bool = lin.0 <= 0;
        let lambda: Fx = if inside {
            lout.0
        } else {
            lin.0
        };
        let face: V3 = if inside {
            lout.1
        } else {
            lin.1
        };

        if lambda <= 0 {
            return None;
        }

        let position: V3 = ray.origin.add(ray.direction.scale(lambda));
        let normal: V3 = if inside {
            face.neg()
        } else {
            face
        };

        Some(Intersection { position, normal, lambda, inside })
    }
}

/// Elementwise fixed-point division.
fn div_elem(a: V3, b: V3) -> (r: V3)
    ensures
        r == spec_div_elem(a, b),
{
    V3 { x: fx::div(a.x, b.x), y: fx::div(a.y, b.y), z: fx::div(a.z, b.z) }
}

/// The slab entry point and face normal of one axis.
fn entry(a: Fx, b: Fx, axis: V3) -> (r: (Fx, V3))
    ensures
        (r.0 as int, r.1) == spec_entry(a as int, b as int, axis),
{
    if a < b {
        (a, axis.neg())
    } else {
        (b, axis)
    }
}

/// The slab exit point and face normal of one axis.
fn exit(a: Fx, b: Fx, axis: V3) -> (r: (Fx, V3))
    ensures
        (r.0 as int, r.1) == spec_exit(a as int, b as int, axis),
{
    if a > b {
        (a, axis.neg())
    } else {
        (b, axis)
    }
}

/// Keep the farther of accumulator and candidate.
fn farther(acc: (Fx, V3), c: (Fx, V3)) -> (r: (Fx, V3))
    ensures
        (r.0 as int, r.1) == spec_farther((acc.0 as int, acc.1), c.0 as int, c.1),
{
    if c.0 > acc.0 {
        c
    } else {
        acc
    }
}

/// Keep the nearer of accumulator and candidate.
fn nearer(acc: (Fx, V3), c: (Fx, V3)) -> (r: (Fx, V3))
    ensures
        (r.0 as int, r.1) == spec_nearer((acc.0 as int, acc.1), c.0 as int, c.1),
{
    if c.0 < acc.0 {
        c
    } else {
        acc
    }
}

} // verus!
