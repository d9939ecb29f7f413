//! Landmarks, and the change of axes between the tracker and the rig.
//!
//! A landmark is a point in space with single-precision coordinates, each held as its
//! bit pattern. The tracker reports points in the frame of its camera; the rig expects
//! x to the other side, the camera's depth as its height and the camera's height,
//! reversed, as its depth. Hands and faces are turned into the rig's frame after they
//! are centred; bodies are only centred.

use crate::scalar;
use vstd::prelude::*;

verus! {

#[derive(Clone, Copy, Debug, PartialEq, Eq, Structural)]
pub struct Point {
    pub x: u32,
    pub y: u32,
    pub z: u32,
}

impl Point {
    /// The point in the rig's axes: `(-x, z, -y)`.
    pub open spec fn remapped(self) -> Point {
        Point { x: scalar::negated(self.x), y: self.z, z: scalar::negated(self.y) }
    }

    /// Turns one point into the rig's axes.
    #[verifier::when_used_as_spec(remapped)]
    pub fn remap(self) -> (p: Point)
        ensures
            p == self.remapped(),
    {
        Point { x: scalar::negate(self.x), y: self.z, z: scalar::negate(self.y) }
    }

    /// The point with the coordinates `a[0]`, `a[1]`, `a[2]`.
    pub fn from_array(a: [u32; 3]) -> (p: Point)
        ensures
            p == (Point { x: a[0], y: a[1], z: a[2] }),
    {
        Point { x: a[0], y: a[1], z: a[2] }
    }

    /// The coordinates in the order x, y, z.
    pub fn to_array(self) -> (a: [u32; 3])
        ensures
            a@ == seq![self.x, self.y, self.z],
    {
        [self.x, self.y, self.z]
    }
}

/// The square of the distance between two points, in units of 2^-298.
pub open spec fn squared_distance(p: Point, q: Point) -> int {
    let dx: int = scalar::value(p.x) - scalar::value(q.x);
    let dy: int = scalar::value(p.y) - scalar::value(q.y);
    let dz: int = scalar::value(p.z) - scalar::value(q.z);
    dx * dx + dy * dy + dz * dz
}

/// The dot product of two points read as vectors from the origin, in units of 2^-298.
pub open spec fn dot(p: Point, q: Point) -> int {
    scalar::value(p.x) * scalar::value(q.x) + scalar::value(p.y) * scalar::value(q.y)
        + scalar::value(p.z) * scalar::value(q.z)
}

/// Turns every point of a set into the rig's axes.
pub fn remap_axes(points: &[Point]) -> (out: Vec<Point>)
    ensures
        out.len() == points.len(),
        forall|i: int| 0 <= i < points.len() ==> #[trigger] out[i] == points[i].remapped(),
{
    let mut out: Vec<Point> = Vec::new();
    let mut i: usize = 0;
    while i < points.len()
        invariant
            i <= points.len(),
            out.len() == i,
            forall|k: int| 0 <= k < i ==> #[trigger] out[k] == points[k].remapped(),
        decreases points.len() - i,
    {
        out.push(points[i].remap());
        i += 1;
    }
    out
}

/// The change of axes is rigid. It is exact on the bits, so the distance between any
/// two points and the dot product of any two vectors are the same before and after,
/// with no rounding: lengths and angles are kept, and the origin stays where it is.
pub proof fn lemma_remap_is_rigid(p: Point, q: Point)
    ensures
        squared_distance(p.remapped(), q.remapped()) == squared_distance(p, q),
        dot(p.remapped(), q.remapped()) == dot(p, q),
        dot(p, p) == 0 ==> dot(p.remapped(), p.remapped()) == 0,
{
    scalar::lemma_negated(p.x);
    scalar::lemma_negated(p.y);
    scalar::lemma_negated(q.x);
    scalar::lemma_negated(q.y);
    let px: int = scalar::value(p.x);
    let py: int = scalar::value(p.y);
    let qx: int = scalar::value(q.x);
    let qy: int = scalar::value(q.y);
    assert((-px - (-qx)) * (-px - (-qx)) == (px - qx) * (px - qx)) by (nonlinear_arith);
    assert((-py - (-qy)) * (-py - (-qy)) == (py - qy) * (py - qy)) by (nonlinear_arith);
    assert((-px) * (-qx) == px * qx) by (nonlinear_arith);
    assert((-py) * (-qy) == py * qy) by (nonlinear_arith);
    assert((-px) * (-px) == px * px) by (nonlinear_arith);
    assert((-py) * (-py) == py * py) by (nonlinear_arith);
}

} // verus!
