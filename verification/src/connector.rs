//! The connector itself: its cached geometry, its link to a peer, and the
//! operations that make, change and undo the fixed joint behind that link.

use crate::error::FixedJointComponentError;
use crate::geometry::{Frame, Point};
use crate::objects::{rigid_body_of, GameObjectId, ObjectRecord};
use crate::joint::{
    fixed_joint_inside, fixed_joint_local_frame1, fixed_joint_local_frame2, fixed_joint_new,
    fixed_joint_set_local_anchor1, fixed_joint_set_local_anchor2, fixed_joint_set_local_frame1,
    fixed_joint_set_local_frame2, JointInside,
};
use crate::registry::{
    holds_fixed, registry_fixed, registry_fixed_mut, registry_insert, registry_remove, JointEntry, JointHandle,
};
use crate::world::{World, WorldView};
use rapier3d::dynamics::FixedJoint;
use vstd::prelude::*;

verus! {

/// The two frames of a fixed joint, as read from the joint set.
#[derive(Clone, Copy, Debug, PartialEq, Eq, Structural)]
pub struct FixedJointFrames {
    /// The joint's frame in the local space of the first body.
    pub local_frame1: Frame,
    /// The joint's frame in the local space of the second body.
    pub local_frame2: Frame,
}

impl FixedJointFrames {
    /// The two frames that a joint holds.
    pub open spec fn of(inside: JointInside) -> FixedJointFrames {
        FixedJointFrames { local_frame1: inside.local_frame1, local_frame2: inside.local_frame2 }
    }

    /// The joint's anchor in the local space of the first body.
    pub open spec fn spec_local_anchor1(self) -> Point {
        self.local_frame1.translation
    }

    /// The joint's anchor in the local space of the second body.
    pub open spec fn spec_local_anchor2(self) -> Point {
        self.local_frame2.translation
    }

    /// The joint's frame in the local space of the first body.
    pub fn local_frame1(&self) -> (frame: Frame)
        ensures
            frame == self.local_frame1,
    {
        self.local_frame1
    }

    /// The joint's frame in the local space of the second body.
    pub fn local_frame2(&self) -> (frame: Frame)
        ensures
            frame == self.local_frame2,
    {
        self.local_frame2
    }

    /// The joint's anchor in the local space of the first body: the
    /// translation of its first frame.
    pub fn local_anchor1(&self) -> (anchor: Point)
        ensures
            anchor == self.spec_local_anchor1(),
    {
        self.local_frame1.translation
    }

    /// The joint's anchor in the local space of the second body: the
    /// translation of its second frame.
    pub fn local_anchor2(&self) -> (anchor: Point)
        ensures
            anchor == self.spec_local_anchor2(),
    {
        self.local_frame2.translation
    }
}

/// The peer of a connected connector together with the joint that ties the
/// two. Keeping both in one value means that neither is ever set without the
/// other.
#[derive(Clone, Copy, Debug)]
struct JointLink {
    connected: GameObjectId,
    handle: JointHandle,
}

/// Joins the rigid body of the object that owns it to the rigid body of
/// another object with a fixed joint.
#[derive(Debug)]
pub struct FixedJointConnnector {
    parent: GameObjectId,
    link: Option<JointLink>,
    local_anchor1: Point,
    local_anchor2: Point,
    local_frame1: Frame,
    local_frame2: Frame,
}

/// A connector as contracts see it.
pub struct ConnectorView {
    /// The object that owns the connector.
    pub parent: GameObjectId,
    /// The object that the connector is joined to, if any.
    pub connected: Option<GameObjectId>,
    /// The joint that ties the two, if any.
    pub handle: Option<JointHandle>,
    /// The cached anchor in the owner's local space.
    pub local_anchor1: Point,
    /// The cached anchor in the peer's local space.
    pub local_anchor2: Point,
    /// The cached frame in the owner's local space.
    pub local_frame1: Frame,
    /// The cached frame in the peer's local space.
    pub local_frame2: Frame,
}

impl View for FixedJointConnnector {
    type V = ConnectorView;

    closed spec fn view(&self) -> ConnectorView {
        ConnectorView {
            parent: self.parent,
            connected: match self.link {
                Some(link) => Some(link.connected),
                None => None,
            },
            handle: match self.link {
                Some(link) => Some(link.handle),
                None => None,
            },
            local_anchor1: self.local_anchor1,
            local_anchor2: self.local_anchor2,
            local_frame1: self.local_frame1,
            local_frame2: self.local_frame2,
        }
    }
}

/// A connector has a peer exactly when it has a joint handle: whatever was
/// done to it, the two are set together or not at all.
pub proof fn peer_and_handle_go_together(connector: FixedJointConnnector)
    ensures
        connector@.connected is Some <==> connector@.handle is Some,
{
}

impl ConnectorView {
    /// A connector of `parent` that is not connected and has its anchors at
    /// the origin and its frames at the identity.
    pub open spec fn fresh(parent: GameObjectId) -> ConnectorView {
        ConnectorView {
            parent,
            connected: None,
            handle: None,
            local_anchor1: Point::spec_origin(),
            local_anchor2: Point::spec_origin(),
            local_frame1: Frame::spec_identity(),
            local_frame2: Frame::spec_identity(),
        }
    }

    /// This connector, joined to `body` by the joint under `handle`.
    pub open spec fn linked(self, body: GameObjectId, handle: JointHandle) -> ConnectorView {
        ConnectorView { connected: Some(body), handle: Some(handle), ..self }
    }

    /// This connector, joined to nothing.
    pub open spec fn unlinked(self) -> ConnectorView {
        ConnectorView { connected: None, handle: None, ..self }
    }

    /// The joint that this connector asks for: a fixed joint whose frames are
    /// the cached frames. The cached anchors play no part in it, since a joint
    /// keeps its anchor as the translation of its frame.
    pub open spec fn descriptor(self) -> JointInside {
        JointInside { fixed: true, local_frame1: self.local_frame1, local_frame2: self.local_frame2 }
    }

    /// Why this connector cannot be joined to `body`, if it cannot. The peer
    /// is looked for first, then the owner's rigid body, then the peer's.
    pub open spec fn connect_error(
        self,
        objects: Map<GameObjectId, ObjectRecord>,
        body: GameObjectId,
    ) -> Option<FixedJointComponentError> {
        if !objects.contains_key(body) {
            Some(FixedJointComponentError::InvalidConnector)
        } else if rigid_body_of(objects, self.parent) is None {
            Some(FixedJointComponentError::NoParentRigidBody)
        } else if rigid_body_of(objects, body) is None {
            Some(FixedJointComponentError::NoConnectorRigidBody)
        } else {
            None
        }
    }

    /// The handle of this connector's joint where `joints` still holds a
    /// fixed joint under it.
    pub open spec fn live_handle(self, joints: Map<JointHandle, JointEntry>) -> Option<JointHandle> {
        match self.handle {
            Some(handle) if holds_fixed(joints, handle) => Some(handle),
            _ => None,
        }
    }

    /// The frames of this connector's joint where `joints` still holds a fixed
    /// joint under its handle.
    pub open spec fn live_joint(self, joints: Map<JointHandle, JointEntry>) -> Option<FixedJointFrames> {
        match self.live_handle(joints) {
            Some(handle) => Some(FixedJointFrames::of(joints[handle].inside())),
            None => None,
        }
    }

    /// `joints` without this connector's joint.
    pub open spec fn released(self, joints: Map<JointHandle, JointEntry>) -> Map<JointHandle, JointEntry> {
        match self.handle {
            Some(handle) => joints.remove(handle),
            None => joints,
        }
    }

    /// The world after this connector has let go of its joint: the joint has
    /// left the set and nothing else has changed.
    pub open spec fn world_after_disconnect(self, world: WorldView) -> WorldView {
        WorldView { joints: self.released(world.joints), ..world }
    }

    /// The world after this connector has been joined to `body` by a new joint
    /// under `handle`: the joint it had before has left the set, the new one
    /// ties the owner's body to the peer's, and both bodies are noted to be
    /// woken.
    pub open spec fn world_after_connect(self, world: WorldView, body: GameObjectId, handle: JointHandle) -> WorldView
        recommends
            self.connect_error(world.objects, body) is None,
    {
        let body1 = rigid_body_of(world.objects, self.parent).unwrap();
        let body2 = rigid_body_of(world.objects, body).unwrap();
        WorldView {
            objects: world.objects,
            joints: self.released(world.joints).insert(
                handle,
                JointEntry::between(body1, body2, self.descriptor()),
            ),
            wake_requests: world.wake_requests.insert(body1).insert(body2),
        }
    }

    /// Whether `after` and `world_after` are this connector and `world` once
    /// the connector has been joined to `body`: the connector records the peer
    /// and a handle that the set did not hold once the earlier joint had left
    /// it, and the world is [`Self::world_after_connect`] for that handle.
    pub open spec fn joined(
        self,
        world: WorldView,
        body: GameObjectId,
        after: ConnectorView,
        world_after: WorldView,
    ) -> bool {
        &&& after.handle is Some
        &&& !self.released(world.joints).contains_key(after.handle.unwrap())
        &&& after == self.linked(body, after.handle.unwrap())
        &&& world_after == self.world_after_connect(world, body, after.handle.unwrap())
    }

    /// The world after a borrow of this connector's live joint, at whose end
    /// the joint held `inside`: the entry of that joint holds `inside` and
    /// ties the same bodies as before, and nothing else has changed. `world`
    /// itself where there is no live joint.
    pub open spec fn world_after_borrow(self, world: WorldView, inside: JointInside) -> WorldView {
        match self.live_handle(world.joints) {
            Some(handle) => WorldView {
                joints: world.joints.insert(handle, world.joints[handle].with_inside(inside)),
                ..world
            },
            None => world,
        }
    }

    /// The world after `anchor` has been pushed into the first frame of this
    /// connector's live joint; `world` itself where there is no live joint.
    pub open spec fn world_after_anchor1(self, world: WorldView, anchor: Point) -> WorldView {
        match self.live_handle(world.joints) {
            Some(handle) => WorldView {
                joints: world.joints.insert(handle, world.joints[handle].with_anchor1(anchor)),
                ..world
            },
            None => world,
        }
    }

    /// The world after `anchor` has been pushed into the second frame of this
    /// connector's live joint; `world` itself where there is no live joint.
    pub open spec fn world_after_anchor2(self, world: WorldView, anchor: Point) -> WorldView {
        match self.live_handle(world.joints) {
            Some(handle) => WorldView {
                joints: world.joints.insert(handle, world.joints[handle].with_anchor2(anchor)),
                ..world
            },
            None => world,
        }
    }

    /// The world after `frame` has become the first frame of this connector's
    /// live joint; `world` itself where there is no live joint.
    pub open spec fn world_after_frame1(self, world: WorldView, frame: Frame) -> WorldView {
        match self.live_handle(world.joints) {
            Some(handle) => WorldView {
                joints: world.joints.insert(handle, world.joints[handle].with_frame1(frame)),
                ..world
            },
            None => world,
        }
    }

    /// The world after `frame` has become the second frame of this connector's
    /// live joint; `world` itself where there is no live joint.
    pub open spec fn world_after_frame2(self, world: WorldView, frame: Frame) -> WorldView {
        match self.live_handle(world.joints) {
            Some(handle) => WorldView {
                joints: world.joints.insert(handle, world.joints[handle].with_frame2(frame)),
                ..world
            },
            None => world,
        }
    }
}

impl FixedJointConnnector {
    /// A connector for the object `parent`: not connected, with both anchors
    /// at the origin and both frames at the identity.
    pub fn new(parent: GameObjectId) -> (connector: FixedJointConnnector)
        ensures
            connector@ == ConnectorView::fresh(parent),
    {
        FixedJointConnnector {
            parent,
            link: None,
            local_anchor1: Point::origin(),
            local_anchor2: Point::origin(),
            local_frame1: Frame::identity(),
            local_frame2: Frame::identity(),
        }
    }

    /// The object that owns the connector.
    pub fn parent(&self) -> (parent: GameObjectId)
        ensures
            parent == self@.parent,
    {
        self.parent
    }

    /// The object that the connector is joined to, if any.
    pub fn connected(&self) -> (peer: Option<GameObjectId>)
        ensures
            peer == self@.connected,
    {
        match self.link {
            Some(link) => Some(link.connected),
            None => None,
        }
    }

    /// The handle of the joint that the connector made, if it is connected.
    pub fn handle(&self) -> (handle: Option<JointHandle>)
        ensures
            handle == self@.handle,
    {
        match self.link {
            Some(link) => Some(link.handle),
            None => None,
        }
    }

    /// The cached anchor in the owner's local space.
    pub fn local_anchor1(&self) -> (anchor: Point)
        ensures
            anchor == self@.local_anchor1,
    {
        self.local_anchor1
    }

    /// The cached anchor in the peer's local space.
    pub fn local_anchor2(&self) -> (anchor: Point)
        ensures
            anchor == self@.local_anchor2,
    {
        self.local_anchor2
    }

    /// The cached frame in the owner's local space.
    pub fn local_frame1(&self) -> (frame: Frame)
        ensures
            frame == self@.local_frame1,
    {
        self.local_frame1
    }

    /// The cached frame in the peer's local space.
    pub fn local_frame2(&self) -> (frame: Frame)
        ensures
            frame == self@.local_frame2,
    {
        self.local_frame2
    }

    /// Lets go of the joint, if there is one: it leaves the joint set, without
    /// waking the bodies it tied, and the connector is joined to nothing.
    /// On a connector that is not connected nothing happens.
    pub fn disconnect(&mut self, world: &mut World)
        ensures
            final(self)@ == old(self)@.unlinked(),
            final(world)@ == old(self)@.world_after_disconnect(old(world)@),
    {
        if let Some(link) = self.link {
            registry_remove(&mut world.physics.impulse_joint_set, link.handle, false);
            self.link = None;
        }
    }

    /// To be called when the connector is torn down with its owner: lets go of
    /// the joint, so that the joint set keeps no joint of a connector that is
    /// gone.
    pub fn delete(&mut self, world: &mut World)
        ensures
            final(self)@ == old(self)@.unlinked(),
            final(world)@ == old(self)@.world_after_disconnect(old(world)@),
            old(self)@.handle is Some ==> !final(world)@.joints.contains_key(old(self)@.handle.unwrap()),
    {
        self.disconnect(world);
    }

    /// Joins the owner's rigid body to the rigid body of `body` with a fixed
    /// joint built from the cached anchors and frames.
    ///
    /// Fails, and changes nothing, where `body` does not exist or where the
    /// owner or `body` has no rigid body. Otherwise a connector that was
    /// already connected lets go of its joint first, the new joint enters the
    /// joint set under a handle that the set did not hold, both bodies are
    /// noted to be woken, and the connector records the peer and the handle.
    pub fn try_connect_to(&mut self, body: GameObjectId, world: &mut World) -> (result: Result<
        (),
        FixedJointComponentError,
    >)
        ensures
            match old(self)@.connect_error(old(world)@.objects, body) {
                Some(error) => {
                    &&& result == Err::<(), FixedJointComponentError>(error)
                    &&& final(self)@ == old(self)@
                    &&& final(world)@ == old(world)@
                },
                None => {
                    &&& result is Ok
                    &&& old(self)@.joined(old(world)@, body, final(self)@, final(world)@)
                },
            },
    {
        if !world.objects.contains(body) {
            return Err(FixedJointComponentError::InvalidConnector);
        }
        let self_rb = match world.objects.rigid_body(self.parent) {
            Some(handle) => handle,
            None => {
                return Err(FixedJointComponentError::NoParentRigidBody);
            },
        };
        let other_rb = match world.objects.rigid_body(body) {
            Some(handle) => handle,
            None => {
                return Err(FixedJointComponentError::NoConnectorRigidBody);
            },
        };
        let joint = self.descriptor();
        self.disconnect(world);
        let handle = registry_insert(&mut world.physics.impulse_joint_set, self_rb, other_rb, joint, true);
        self.link = Some(JointLink { connected: body, handle });
        Ok(())
    }

    /// Joins the owner to `body` as [`Self::try_connect_to`] does, but keeps a
    /// failure from the caller: where the connection cannot be made, nothing
    /// changes and the diagnostic to report is returned.
    pub fn connect_to(&mut self, body: GameObjectId, world: &mut World) -> (warning: Option<String>)
        ensures
            match old(self)@.connect_error(old(world)@.objects, body) {
                Some(error) => {
                    &&& warning is Some
                    &&& warning.unwrap()@ == error.spec_message()
                    &&& final(self)@ == old(self)@
                    &&& final(world)@ == old(world)@
                },
                None => {
                    &&& warning is None
                    &&& old(self)@.joined(old(world)@, body, final(self)@, final(world)@)
                },
            },
    {
        match self.try_connect_to(body, world) {
            Ok(()) => None,
            Err(error) => Some(error.message()),
        }
    }

    /// The joint to hand to the joint set: a fixed joint that is given the
    /// cached anchors and then the cached frames, so that each frame ends as
    /// the cached one.
    fn descriptor(&self) -> (joint: FixedJoint)
        ensures
            fixed_joint_inside(joint) == self@.descriptor(),
    {
        let mut joint = fixed_joint_new();
        fixed_joint_set_local_anchor1(&mut joint, self.local_anchor1);
        fixed_joint_set_local_anchor2(&mut joint, self.local_anchor2);
        fixed_joint_set_local_frame1(&mut joint, self.local_frame1);
        fixed_joint_set_local_frame2(&mut joint, self.local_frame2);
        joint
    }

    /// The frames of the live joint: present exactly where the connector holds
    /// a handle, the joint set still has a joint under it, and that joint is a
    /// fixed joint.
    pub fn joint(&self, world: &World) -> (live: Option<FixedJointFrames>)
        ensures
            live == self@.live_joint(world@.joints),
    {
        let link = self.link?;
        let joint = registry_fixed(&world.physics.impulse_joint_set, link.handle)?;
        Some(
            FixedJointFrames {
                local_frame1: fixed_joint_local_frame1(joint),
                local_frame2: fixed_joint_local_frame2(joint),
            },
        )
    }

    /// The live joint itself, to be changed in place: present exactly where
    /// [`Self::joint`] is, and holding the frames that [`Self::joint`] shows.
    /// The look-up changes nothing and wakes no body. When the borrow ends,
    /// the joint set holds under the connector's handle what the caller left
    /// in the joint, and nothing else in the world has changed; the cached
    /// values of the connector are not touched.
    pub fn joint_mut<'a>(&self, world: &'a mut World) -> (live: Option<&'a mut FixedJoint>)
        ensures
            live is Some <==> self@.live_joint(old(world)@.joints) is Some,
            live is Some ==> fixed_joint_inside(*live.unwrap()).fixed,
            live is Some ==> FixedJointFrames::of(fixed_joint_inside(*live.unwrap())) == self@.live_joint(
                old(world)@.joints,
            ).unwrap(),
            live is Some ==> final(world)@ == self@.world_after_borrow(
                old(world)@,
                fixed_joint_inside(*final(live.unwrap())),
            ),
            live is None ==> final(world)@ == old(world)@,
    {
        match self.link {
            Some(link) => registry_fixed_mut(&mut world.physics.impulse_joint_set, link.handle, false),
            None => None,
        }
    }

    /// Caches `anchor` as the anchor in the owner's local space and, where the
    /// connector has a live joint, makes it the translation of that joint's
    /// first frame at once.
    pub fn set_local_anchor1(&mut self, anchor: Point, world: &mut World)
        ensures
            final(self)@ == (ConnectorView { local_anchor1: anchor, ..old(self)@ }),
            final(world)@ == old(self)@.world_after_anchor1(old(world)@, anchor),
    {
        self.local_anchor1 = anchor;
        if let Some(joint) = self.joint_mut(world) {
            fixed_joint_set_local_anchor1(joint, anchor);
        }
    }

    /// Caches `anchor` as the anchor in the peer's local space and, where the
    /// connector has a live joint, makes it the translation of that joint's
    /// second frame at once.
    pub fn set_local_anchor2(&mut self, anchor: Point, world: &mut World)
        ensures
            final(self)@ == (ConnectorView { local_anchor2: anchor, ..old(self)@ }),
            final(world)@ == old(self)@.world_after_anchor2(old(world)@, anchor),
    {
        self.local_anchor2 = anchor;
        if let Some(joint) = self.joint_mut(world) {
            fixed_joint_set_local_anchor2(joint, anchor);
        }
    }

    /// Caches `frame` as the frame in the owner's local space and, where the
    /// connector has a live joint, makes it that joint's first frame at once.
    pub fn set_local_frame1(&mut self, frame: Frame, world: &mut World)
        ensures
            final(self)@ == (ConnectorView { local_frame1: frame, ..old(self)@ }),
            final(world)@ == old(self)@.world_after_frame1(old(world)@, frame),
    {
        self.local_frame1 = frame;
        if let Some(joint) = self.joint_mut(world) {
            fixed_joint_set_local_frame1(joint, frame);
        }
    }

    /// Caches `frame` as the frame in the peer's local space and, where the
    /// connector has a live joint, makes it that joint's second frame at once.
    pub fn set_local_frame2(&mut self, frame: Frame, world: &mut World)
        ensures
            final(self)@ == (ConnectorView { local_frame2: frame, ..old(self)@ }),
            final(world)@ == old(self)@.world_after_frame2(old(world)@, frame),
    {
        self.local_frame2 = frame;
        if let Some(joint) = self.joint_mut(world) {
            fixed_joint_set_local_frame2(joint, frame);
        }
    }
}

} // verus!
