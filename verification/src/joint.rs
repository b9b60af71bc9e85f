//! A fixed joint on its own, before it enters a joint set or while it is
//! borrowed from one.
//!
//! The joint is rapier's. [`fixed_joint_inside`] names the part of it that the
//! connector works with, and the functions here say what each call used by the
//! connector does to that part. Those statements are taken on trust from
//! rapier's source.

use crate::geometry::{Frame, Point, Rotation};
use nalgebra::{Isometry3, Point3, Quaternion, Translation3, Unit};
use rapier3d::dynamics::{FixedJoint, FixedJointBuilder};
use rapier3d::math::Real;
use vstd::prelude::*;

verus! {

/// rapier's `FixedJoint`, whose inside is not looked at here.
#[verifier::external_type_specification]
#[verifier::external_body]
pub struct ExFixedJoint(FixedJoint);

/// What a joint holds apart from the bodies it ties.
#[derive(Clone, Copy, Debug, PartialEq, Eq, Structural)]
pub struct JointInside {
    /// Whether the joint locks all six degrees of freedom, and so is a fixed
    /// joint.
    pub fixed: bool,
    /// The joint's frame in the local space of the first body.
    pub local_frame1: Frame,
    /// The joint's frame in the local space of the second body.
    pub local_frame2: Frame,
}

impl JointInside {
    /// A fixed joint with both frames at the identity.
    pub open spec fn fresh() -> JointInside {
        JointInside { fixed: true, local_frame1: Frame::spec_identity(), local_frame2: Frame::spec_identity() }
    }

    /// This joint with another first frame.
    pub open spec fn with_frame1(self, frame: Frame) -> JointInside {
        JointInside { local_frame1: frame, ..self }
    }

    /// This joint with another second frame.
    pub open spec fn with_frame2(self, frame: Frame) -> JointInside {
        JointInside { local_frame2: frame, ..self }
    }

    /// This joint with the translation of its first frame replaced.
    pub open spec fn with_anchor1(self, anchor: Point) -> JointInside {
        self.with_frame1(self.local_frame1.spec_with_translation(anchor))
    }

    /// This joint with the translation of its second frame replaced.
    pub open spec fn with_anchor2(self, anchor: Point) -> JointInside {
        self.with_frame2(self.local_frame2.spec_with_translation(anchor))
    }
}

/// What the joint holds: whether its locked axes are those of a fixed joint,
/// and the coordinates of the two frames of its `data`.
pub uninterp spec fn fixed_joint_inside(joint: FixedJoint) -> JointInside;

/// `FixedJointBuilder::new`, then `build`: a fixed joint with both frames at
/// the identity.
#[verifier::external_body]
pub(crate) fn fixed_joint_new() -> (joint: FixedJoint)
    ensures
        fixed_joint_inside(joint) == JointInside::fresh(),
{
    FixedJointBuilder::new().build()
}

/// `FixedJoint::local_frame1`, read back coordinate by coordinate.
#[verifier::external_body]
pub(crate) fn fixed_joint_local_frame1(joint: &FixedJoint) -> (frame: Frame)
    ensures
        frame == fixed_joint_inside(*joint).local_frame1,
{
    let (q, t) = (joint.local_frame1().rotation, joint.local_frame1().translation);
    Frame {
        rotation: Rotation { i: q.i.to_bits(), j: q.j.to_bits(), k: q.k.to_bits(), w: q.w.to_bits() },
        translation: Point { x: t.x.to_bits(), y: t.y.to_bits(), z: t.z.to_bits() },
    }
}

/// `FixedJoint::local_frame2`, read back coordinate by coordinate.
#[verifier::external_body]
pub(crate) fn fixed_joint_local_frame2(joint: &FixedJoint) -> (frame: Frame)
    ensures
        frame == fixed_joint_inside(*joint).local_frame2,
{
    let (q, t) = (joint.local_frame2().rotation, joint.local_frame2().translation);
    Frame {
        rotation: Rotation { i: q.i.to_bits(), j: q.j.to_bits(), k: q.k.to_bits(), w: q.w.to_bits() },
        translation: Point { x: t.x.to_bits(), y: t.y.to_bits(), z: t.z.to_bits() },
    }
}

/// `FixedJoint::set_local_anchor1`: the translation of the first frame becomes
/// `anchor`; nothing else changes.
#[verifier::external_body]
pub(crate) fn fixed_joint_set_local_anchor1(joint: &mut FixedJoint, anchor: Point)
    ensures
        fixed_joint_inside(*final(joint)) == fixed_joint_inside(*old(joint)).with_anchor1(anchor),
{
    let r = Real::from_bits;
    joint.set_local_anchor1(Point3::new(r(anchor.x), r(anchor.y), r(anchor.z)));
}

/// `FixedJoint::set_local_anchor2`: the translation of the second frame
/// becomes `anchor`; nothing else changes.
#[verifier::external_body]
pub(crate) fn fixed_joint_set_local_anchor2(joint: &mut FixedJoint, anchor: Point)
    ensures
        fixed_joint_inside(*final(joint)) == fixed_joint_inside(*old(joint)).with_anchor2(anchor),
{
    let r = Real::from_bits;
    joint.set_local_anchor2(Point3::new(r(anchor.x), r(anchor.y), r(anchor.z)));
}

/// `FixedJoint::set_local_frame1`: the first frame becomes `frame`; nothing
/// else changes.
#[verifier::external_body]
pub(crate) fn fixed_joint_set_local_frame1(joint: &mut FixedJoint, frame: Frame)
    ensures
        fixed_joint_inside(*final(joint)) == fixed_joint_inside(*old(joint)).with_frame1(frame),
{
    let (r, q, t) = (Real::from_bits, frame.rotation, frame.translation);
    let turn = Unit::new_unchecked(Quaternion::new(r(q.w), r(q.i), r(q.j), r(q.k)));
    joint.set_local_frame1(Isometry3::from_parts(Translation3::new(r(t.x), r(t.y), r(t.z)), turn));
}

/// `FixedJoint::set_local_frame2`: the second frame becomes `frame`; nothing
/// else changes.
#[verifier::external_body]
pub(crate) fn fixed_joint_set_local_frame2(joint: &mut FixedJoint, frame: Frame)
    ensures
        fixed_joint_inside(*final(joint)) == fixed_joint_inside(*old(joint)).with_frame2(frame),
{
    let (r, q, t) = (Real::from_bits, frame.rotation, frame.translation);
    let turn = Unit::new_unchecked(Quaternion::new(r(q.w), r(q.i), r(q.j), r(q.k)));
    joint.set_local_frame2(Isometry3::from_parts(Translation3::new(r(t.x), r(t.y), r(t.z)), turn));
}

} // verus!
