//! The world that a connector works in: the objects of the scene and the
//! joints of the physics simulation.

use crate::objects::{BodyHandle, GameObjectId, ObjectDirectory, ObjectRecord};
use crate::registry::{registry_joints, registry_new, registry_wake_requests, JointEntry, JointHandle};
use rapier3d::dynamics::ImpulseJointSet;
use vstd::prelude::*;

verus! {

/// The part of the physics simulation that a connector touches.
pub struct PhysicsWorld {
    /// The joints between rigid bodies.
    pub impulse_joint_set: ImpulseJointSet,
}

/// The scene and its physics.
pub struct World {
    /// The objects that exist.
    pub objects: ObjectDirectory,
    /// The physics simulation.
    pub physics: PhysicsWorld,
}

/// A world as contracts see it.
pub struct WorldView {
    /// The objects that exist, each with what the directory records for it.
    pub objects: Map<GameObjectId, ObjectRecord>,
    /// The joints of the simulation, each under its handle.
    pub joints: Map<JointHandle, JointEntry>,
    /// The bodies noted to be woken at the next step of the simulation.
    pub wake_requests: Set<BodyHandle>,
}

impl View for World {
    type V = WorldView;

    open spec fn view(&self) -> WorldView {
        WorldView {
            objects: self.objects@,
            joints: registry_joints(self.physics.impulse_joint_set),
            wake_requests: registry_wake_requests(self.physics.impulse_joint_set),
        }
    }
}

impl WorldView {
    /// The world without objects, joints or wake requests.
    pub open spec fn empty() -> WorldView {
        WorldView { objects: Map::empty(), joints: Map::empty(), wake_requests: Set::empty() }
    }
}

impl PhysicsWorld {
    /// A simulation without joints.
    pub fn new() -> (physics: PhysicsWorld)
        ensures
            registry_joints(physics.impulse_joint_set) == Map::<JointHandle, JointEntry>::empty(),
            registry_wake_requests(physics.impulse_joint_set) == Set::<BodyHandle>::empty(),
    {
        PhysicsWorld { impulse_joint_set: registry_new() }
    }
}

impl World {
    /// A world without objects and without joints.
    pub fn new() -> (world: World)
        ensures
            world@ == WorldView::empty(),
    {
        World { objects: ObjectDirectory::new(), physics: PhysicsWorld::new() }
    }
}

} // verus!
