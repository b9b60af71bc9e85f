//! Anchor points and reference frames.
//!
//! Every coordinate is kept as the IEEE 754 binary32 bit pattern of the number
//! it stands for, so that two values are equal exactly when they would be
//! stored identically by the physics engine.

use nalgebra::{Isometry3, Point3};
use rapier3d::math::Real;
use vstd::prelude::*;

verus! {

/// The bit pattern of the number one.
pub const ONE_BITS: u32 = 0x3f80_0000;

/// A point in the local space of a body.
#[derive(Clone, Copy, Debug, PartialEq, Eq, Structural)]
pub struct Point {
    pub x: u32,
    pub y: u32,
    pub z: u32,
}

/// A rotation as a quaternion with imaginary parts `i`, `j`, `k` and real
/// part `w`.
#[derive(Clone, Copy, Debug, PartialEq, Eq, Structural)]
pub struct Rotation {
    pub i: u32,
    pub j: u32,
    pub k: u32,
    pub w: u32,
}

/// A rigid transform in the local space of a body: a rotation followed by a
/// translation.
#[derive(Clone, Copy, Debug, PartialEq, Eq, Structural)]
pub struct Frame {
    pub rotation: Rotation,
    pub translation: Point,
}

/// `nalgebra::Point3::origin`, read back coordinate by coordinate: all three
/// are positive zero.
#[verifier::external_body]
fn nalgebra_origin() -> (p: Point)
    ensures
        p == Point::spec_origin(),
{
    let p = Point3::<Real>::origin();
    Point { x: p.x.to_bits(), y: p.y.to_bits(), z: p.z.to_bits() }
}

/// `nalgebra::Isometry3::identity`, read back coordinate by coordinate: the
/// translation is zero and the rotation is the quaternion one.
#[verifier::external_body]
fn nalgebra_identity() -> (f: Frame)
    ensures
        f == Frame::spec_identity(),
{
    let f = Isometry3::<Real>::identity();
    let (q, t) = (f.rotation, f.translation);
    Frame {
        rotation: Rotation { i: q.i.to_bits(), j: q.j.to_bits(), k: q.k.to_bits(), w: q.w.to_bits() },
        translation: Point { x: t.x.to_bits(), y: t.y.to_bits(), z: t.z.to_bits() },
    }
}

impl Point {
    /// The point whose coordinates are all zero.
    pub open spec fn spec_origin() -> Point {
        Point { x: 0, y: 0, z: 0 }
    }

    /// The origin of a body's local space.
    pub fn origin() -> (p: Point)
        ensures
            p == Point::spec_origin(),
    {
        nalgebra_origin()
    }
}

impl Rotation {
    /// The rotation that turns nothing.
    pub open spec fn spec_identity() -> Rotation {
        Rotation { i: 0, j: 0, k: 0, w: ONE_BITS }
    }
}

impl Frame {
    /// The transform that moves nothing.
    pub open spec fn spec_identity() -> Frame {
        Frame { rotation: Rotation::spec_identity(), translation: Point::spec_origin() }
    }

    /// This frame with its translation replaced by `anchor`.
    pub open spec fn spec_with_translation(self, anchor: Point) -> Frame {
        Frame { rotation: self.rotation, translation: anchor }
    }

    /// The transform that leaves a body's local space as it is.
    pub fn identity() -> (f: Frame)
        ensures
            f == Frame::spec_identity(),
    {
        nalgebra_identity()
    }
}

} // verus!
