//! The joint set of the physics world, seen as a map from joint handles to
//! what each joint holds.
//!
//! The set itself is rapier's. This module says what each call used by the
//! connector does to it, in terms of [`registry_joints`] and
//! [`registry_wake_requests`]. Those statements are taken on trust from
//! rapier's source; everything built on them is proved.

use crate::geometry::{Frame, Point};
use crate::joint::{fixed_joint_inside, JointInside};
use crate::objects::BodyHandle;
use rapier3d::dynamics::{FixedJoint, ImpulseJointHandle, ImpulseJointSet, RigidBodyHandle};
use vstd::prelude::*;

verus! {

/// rapier's `ImpulseJointSet`, whose inside is not looked at here.
#[verifier::external_type_specification]
#[verifier::external_body]
pub struct ExImpulseJointSet(ImpulseJointSet);

/// A handle of a joint of the set: its slot and the generation of that slot.
#[derive(Clone, Copy, Debug, PartialEq, Eq, Structural)]
pub struct JointHandle {
    pub index: u32,
    pub generation: u32,
}

/// What the set holds for one joint.
#[derive(Clone, Copy, Debug, PartialEq, Eq, Structural)]
pub struct JointEntry {
    /// The first body that the joint constrains.
    pub body1: BodyHandle,
    /// The second body that the joint constrains.
    pub body2: BodyHandle,
    /// Whether the joint locks all six degrees of freedom, and so is a fixed
    /// joint.
    pub fixed: bool,
    /// The joint's frame in the local space of the first body.
    pub local_frame1: Frame,
    /// The joint's frame in the local space of the second body.
    pub local_frame2: Frame,
}

impl JointEntry {
    /// The joint that ties `body1` to `body2` and holds `inside`.
    pub open spec fn between(body1: BodyHandle, body2: BodyHandle, inside: JointInside) -> JointEntry {
        JointEntry {
            body1,
            body2,
            fixed: inside.fixed,
            local_frame1: inside.local_frame1,
            local_frame2: inside.local_frame2,
        }
    }

    /// What the joint holds apart from the bodies it ties.
    pub open spec fn inside(self) -> JointInside {
        JointInside { fixed: self.fixed, local_frame1: self.local_frame1, local_frame2: self.local_frame2 }
    }

    /// This entry, tying the same bodies and holding `inside`.
    pub open spec fn with_inside(self, inside: JointInside) -> JointEntry {
        JointEntry::between(self.body1, self.body2, inside)
    }

    /// This entry with another first frame.
    pub open spec fn with_frame1(self, frame: Frame) -> JointEntry {
        self.with_inside(self.inside().with_frame1(frame))
    }

    /// This entry with another second frame.
    pub open spec fn with_frame2(self, frame: Frame) -> JointEntry {
        self.with_inside(self.inside().with_frame2(frame))
    }

    /// This entry with the translation of its first frame replaced.
    pub open spec fn with_anchor1(self, anchor: Point) -> JointEntry {
        self.with_inside(self.inside().with_anchor1(anchor))
    }

    /// This entry with the translation of its second frame replaced.
    pub open spec fn with_anchor2(self, anchor: Point) -> JointEntry {
        self.with_inside(self.inside().with_anchor2(anchor))
    }
}

/// The joints that the set holds, each under its handle. A handle is in the
/// domain exactly when the set's `get` finds a joint for it.
pub uninterp spec fn registry_joints(set: ImpulseJointSet) -> Map<JointHandle, JointEntry>;

/// The bodies that the set has noted to be woken at the next step of the
/// simulation.
pub uninterp spec fn registry_wake_requests(set: ImpulseJointSet) -> Set<BodyHandle>;

/// Whether `joints` holds a fixed joint under `handle`.
pub open spec fn holds_fixed(joints: Map<JointHandle, JointEntry>, handle: JointHandle) -> bool {
    joints.contains_key(handle) && joints[handle].fixed
}

/// `requests` with the two bodies of the joint under `handle` added, where
/// waking is asked for and `joints` holds a joint under `handle`; `requests`
/// itself otherwise.
pub open spec fn woken_by(
    requests: Set<BodyHandle>,
    joints: Map<JointHandle, JointEntry>,
    handle: JointHandle,
    wake_up: bool,
) -> Set<BodyHandle> {
    if wake_up && joints.contains_key(handle) {
        requests.insert(joints[handle].body1).insert(joints[handle].body2)
    } else {
        requests
    }
}

/// `ImpulseJointSet::new`: a set without joints and without wake requests.
#[verifier::external_body]
pub(crate) fn registry_new() -> (fresh: ImpulseJointSet)
    ensures
        registry_joints(fresh) == (Map::<JointHandle, JointEntry>::empty()),
        registry_wake_requests(fresh) == Set::<BodyHandle>::empty(),
{
    ImpulseJointSet::new()
}

/// `ImpulseJointSet::insert`. The set hands out a handle that it did not hold,
/// keeps the joint under it with the two bodies, and keeps every other joint
/// as it was. Where `wake_up` is set it notes both bodies to be woken.
///
/// The set keeps a table that is as long as the largest body index it has seen,
/// so the memory it takes grows with `index` of the two bodies.
#[verifier::external_body]
pub(crate) fn registry_insert(
    set: &mut ImpulseJointSet,
    body1: BodyHandle,
    body2: BodyHandle,
    joint: FixedJoint,
    wake_up: bool,
) -> (handle: JointHandle)
    ensures
        !registry_joints(*old(set)).contains_key(handle),
        registry_joints(*final(set)) == registry_joints(*old(set)).insert(
            handle,
            JointEntry::between(body1, body2, fixed_joint_inside(joint)),
        ),
        registry_wake_requests(*final(set)) == if wake_up {
            registry_wake_requests(*old(set)).insert(body1).insert(body2)
        } else {
            registry_wake_requests(*old(set))
        },
{
    let first = RigidBodyHandle::from_raw_parts(body1.index, body1.generation);
    let second = RigidBodyHandle::from_raw_parts(body2.index, body2.generation);
    let (index, generation) = set.insert(first, second, joint, wake_up).into_raw_parts();
    JointHandle { index, generation }
}

/// `ImpulseJointSet::remove`. The joint under `handle` leaves the set if it
/// was there, and every other joint stays as it was. No wake request is ever
/// dropped. Unless `wake_up` is set and the joint was there, none is added
/// either; where both hold, the set notes the bodies at the two ends of the
/// joint in its graph, of which nothing more is said here.
#[verifier::external_body]
pub(crate) fn registry_remove(set: &mut ImpulseJointSet, handle: JointHandle, wake_up: bool)
    ensures
        registry_joints(*final(set)) == registry_joints(*old(set)).remove(handle),
        !(wake_up && registry_joints(*old(set)).contains_key(handle)) ==> registry_wake_requests(*final(set))
            == registry_wake_requests(*old(set)),
        registry_wake_requests(*old(set)).subset_of(registry_wake_requests(*final(set))),
{
    set.remove(ImpulseJointHandle::from_raw_parts(handle.index, handle.generation), wake_up);
}

/// `ImpulseJointSet::get`, then `GenericJoint::as_fixed` of the joint's
/// `data`: the fixed joint under `handle`, where the set holds one. It holds
/// what the set's entry holds.
#[verifier::external_body]
pub(crate) fn registry_fixed(set: &ImpulseJointSet, handle: JointHandle) -> (joint: Option<&FixedJoint>)
    ensures
        joint is Some <==> holds_fixed(registry_joints(*set), handle),
        joint is Some ==> fixed_joint_inside(*joint.unwrap()) == registry_joints(*set)[handle].inside(),
{
    set.get(ImpulseJointHandle::from_raw_parts(handle.index, handle.generation))?.data.as_fixed()
}

/// `ImpulseJointSet::get_mut`, then `GenericJoint::as_fixed_mut` of the
/// joint's `data`: the fixed joint under `handle` itself, to be changed in
/// place, where the set holds one.
///
/// The joint handed out holds what the set's entry holds. When the borrow
/// ends, the entry holds what the joint then holds and ties the same two
/// bodies as before; every other joint is as it was. Where no joint is handed
/// out the joints stay as they were. Where `wake_up` is set and the set holds
/// a joint under `handle`, of whatever kind, its two bodies are noted to be
/// woken.
#[verifier::external_body]
pub(crate) fn registry_fixed_mut(set: &mut ImpulseJointSet, handle: JointHandle, wake_up: bool) -> (joint: Option<
    &mut FixedJoint,
>)
    ensures
        joint is Some <==> holds_fixed(registry_joints(*old(set)), handle),
        joint is None ==> registry_joints(*final(set)) == registry_joints(*old(set)),
        joint is Some ==> fixed_joint_inside(*joint.unwrap()) == registry_joints(*old(set))[handle].inside(),
        joint is Some ==> registry_joints(*final(set)) == registry_joints(*old(set)).insert(
            handle,
            registry_joints(*old(set))[handle].with_inside(fixed_joint_inside(*final(joint.unwrap()))),
        ),
        registry_wake_requests(*final(set)) == woken_by(
            registry_wake_requests(*old(set)),
            registry_joints(*old(set)),
            handle,
            wake_up,
        ),
{
    set.get_mut(ImpulseJointHandle::from_raw_parts(handle.index, handle.generation), wake_up)?.data.as_fixed_mut()
}

} // verus!
