//! What holds of the connector's operations taken together.
//!
//! Each law speaks of connectors and worlds as the contracts of the operations
//! do, so that it applies to whatever those operations leave behind.

use crate::connector::{ConnectorView, FixedJointFrames};
use crate::joint::JointInside;
use crate::geometry::{Frame, Point};
use crate::objects::GameObjectId;
use crate::world::WorldView;
use vstd::prelude::*;

verus! {

/// After a connection has been made, the connector has a live joint, and each
/// frame of that joint is the frame that the connector had cached when the
/// connection was made.
pub proof fn connect_gives_cached_frames(
    before: ConnectorView,
    world: WorldView,
    body: GameObjectId,
    after: ConnectorView,
    world_after: WorldView,
)
    requires
        before.connect_error(world.objects, body) is None,
        before.joined(world, body, after, world_after),
    ensures
        after.live_joint(world_after.joints) == Some(
            FixedJointFrames { local_frame1: before.local_frame1, local_frame2: before.local_frame2 },
        ),
{
}

/// After a connection has been made, each anchor of the live joint is the
/// anchor that the connector had cached, provided that the cached anchor is
/// the translation of the cached frame of the same side. A joint keeps its
/// anchor as the translation of its frame, so where the two differ the frame
/// decides.
pub proof fn connect_gives_cached_anchors(
    before: ConnectorView,
    world: WorldView,
    body: GameObjectId,
    after: ConnectorView,
    world_after: WorldView,
)
    requires
        before.connect_error(world.objects, body) is None,
        before.joined(world, body, after, world_after),
        before.local_anchor1 == before.local_frame1.translation,
        before.local_anchor2 == before.local_frame2.translation,
    ensures
        after.live_joint(world_after.joints) is Some,
        after.live_joint(world_after.joints).unwrap().spec_local_anchor1() == before.local_anchor1,
        after.live_joint(world_after.joints).unwrap().spec_local_anchor2() == before.local_anchor2,
{
}

/// After a connection has been made, the joint ties the rigid body of the
/// owner to the rigid body of the peer, and both are noted to be woken.
pub proof fn connect_ties_owner_to_peer(
    before: ConnectorView,
    world: WorldView,
    body: GameObjectId,
    after: ConnectorView,
    world_after: WorldView,
)
    requires
        before.connect_error(world.objects, body) is None,
        before.joined(world, body, after, world_after),
    ensures
        after.connected == Some(body),
        world.objects[before.parent].rigid_body is Some,
        world.objects[body].rigid_body is Some,
        world_after.joints[after.handle.unwrap()].body1 == world.objects[before.parent].rigid_body.unwrap(),
        world_after.joints[after.handle.unwrap()].body2 == world.objects[body].rigid_body.unwrap(),
        world_after.wake_requests.contains(world.objects[before.parent].rigid_body.unwrap()),
        world_after.wake_requests.contains(world.objects[body].rigid_body.unwrap()),
{
}

/// A connection made by a connector that was already connected leaves nothing
/// behind: the joint set no longer holds the earlier joint, unless its handle
/// is the one that the new joint was given.
pub proof fn reconnect_releases_earlier_joint(
    before: ConnectorView,
    world: WorldView,
    body: GameObjectId,
    after: ConnectorView,
    world_after: WorldView,
)
    requires
        before.connect_error(world.objects, body) is None,
        before.joined(world, body, after, world_after),
        before.handle is Some,
        before.handle != after.handle,
    ensures
        !world_after.joints.contains_key(before.handle.unwrap()),
{
}

/// A connection changes no joint but the connector's own: every other joint of
/// the set is there afterwards exactly as it was.
pub proof fn connect_keeps_other_joints(
    before: ConnectorView,
    world: WorldView,
    body: GameObjectId,
    after: ConnectorView,
    world_after: WorldView,
)
    requires
        before.connect_error(world.objects, body) is None,
        before.joined(world, body, after, world_after),
    ensures
        forall|other| #![auto]
            world.joints.contains_key(other) && before.handle != Some(other) ==> world_after.joints.contains_key(
                other,
            ) && world_after.joints[other] == world.joints[other],
{
}

/// Disconnecting twice is disconnecting once: the second time changes neither
/// the connector nor the world.
pub proof fn disconnect_twice_is_once(connector: ConnectorView, world: WorldView)
    ensures
        connector.unlinked().unlinked() == connector.unlinked(),
        connector.unlinked().world_after_disconnect(connector.world_after_disconnect(world))
            == connector.world_after_disconnect(world),
{
}

/// After a disconnect the connector has no live joint, and the joint set does
/// not hold the joint that it had.
pub proof fn disconnect_leaves_no_joint(connector: ConnectorView, world: WorldView)
    ensures
        connector.unlinked().live_joint(connector.world_after_disconnect(world).joints) is None,
        connector.handle is Some ==> !connector.world_after_disconnect(world).joints.contains_key(
            connector.handle.unwrap(),
        ),
{
}

/// An anchor set while the connector has a live joint is the anchor of that
/// joint from then on, and the cached one too. The rotation of the frame and
/// the frame of the other side stay as they were.
pub proof fn anchor_set_while_connected_reaches_joint(connector: ConnectorView, world: WorldView, anchor: Point)
    requires
        connector.live_joint(world.joints) is Some,
    ensures
        ({
            let live = connector.live_joint(world.joints).unwrap();
            let first = (ConnectorView { local_anchor1: anchor, ..connector }).live_joint(
                connector.world_after_anchor1(world, anchor).joints,
            );
            let second = (ConnectorView { local_anchor2: anchor, ..connector }).live_joint(
                connector.world_after_anchor2(world, anchor).joints,
            );
            &&& first == Some(
                FixedJointFrames { local_frame1: live.local_frame1.spec_with_translation(anchor), ..live },
            )
            &&& first.unwrap().spec_local_anchor1() == anchor
            &&& second == Some(
                FixedJointFrames { local_frame2: live.local_frame2.spec_with_translation(anchor), ..live },
            )
            &&& second.unwrap().spec_local_anchor2() == anchor
        }),
{
}

/// A frame set while the connector has a live joint is the frame of that joint
/// from then on, and the cached one too. The frame of the other side stays as
/// it was.
pub proof fn frame_set_while_connected_reaches_joint(connector: ConnectorView, world: WorldView, frame: Frame)
    requires
        connector.live_joint(world.joints) is Some,
    ensures
        ({
            let live = connector.live_joint(world.joints).unwrap();
            let first = (ConnectorView { local_frame1: frame, ..connector }).live_joint(
                connector.world_after_frame1(world, frame).joints,
            );
            let second = (ConnectorView { local_frame2: frame, ..connector }).live_joint(
                connector.world_after_frame2(world, frame).joints,
            );
            &&& first == Some(FixedJointFrames { local_frame1: frame, ..live })
            &&& second == Some(FixedJointFrames { local_frame2: frame, ..live })
        }),
{
}

/// An anchor or a frame set while the connector has no live joint changes
/// nothing in the world: only the cached value is new.
pub proof fn set_without_live_joint_keeps_world(
    connector: ConnectorView,
    world: WorldView,
    anchor: Point,
    frame: Frame,
)
    requires
        connector.live_joint(world.joints) is None,
    ensures
        connector.world_after_anchor1(world, anchor) == world,
        connector.world_after_anchor2(world, anchor) == world,
        connector.world_after_frame1(world, frame) == world,
        connector.world_after_frame2(world, frame) == world,
{
}

/// A frame set before a connection is the frame of the joint that the
/// connection makes.
pub proof fn frame_set_before_connect_is_used(
    connector: ConnectorView,
    world: WorldView,
    frame: Frame,
    body: GameObjectId,
    after: ConnectorView,
    world_after: WorldView,
)
    requires
        connector.connect_error(world.objects, body) is None,
    ensures
        (ConnectorView { local_frame1: frame, ..connector }).joined(world, body, after, world_after)
            ==> after.live_joint(world_after.joints) is Some && after.live_joint(
            world_after.joints,
        ).unwrap().local_frame1 == frame,
        (ConnectorView { local_frame2: frame, ..connector }).joined(world, body, after, world_after)
            ==> after.live_joint(world_after.joints) is Some && after.live_joint(
            world_after.joints,
        ).unwrap().local_frame2 == frame,
{
}

/// An anchor set before a connection is handed to the joint that the
/// connection makes, and is the anchor of that joint where the cached frame of
/// the same side has it as its translation.
pub proof fn anchor_set_before_connect_is_used(
    connector: ConnectorView,
    world: WorldView,
    anchor: Point,
    body: GameObjectId,
    after: ConnectorView,
    world_after: WorldView,
)
    requires
        connector.connect_error(world.objects, body) is None,
    ensures
        (ConnectorView { local_anchor1: anchor, ..connector }).joined(world, body, after, world_after)
            && connector.local_frame1.translation == anchor ==> after.live_joint(world_after.joints) is Some
            && after.live_joint(world_after.joints).unwrap().spec_local_anchor1() == anchor,
        (ConnectorView { local_anchor2: anchor, ..connector }).joined(world, body, after, world_after)
            && connector.local_frame2.translation == anchor ==> after.live_joint(world_after.joints) is Some
            && after.live_joint(world_after.joints).unwrap().spec_local_anchor2() == anchor,
{
}

/// A connection is made exactly where the peer exists and the owner and the
/// peer each carry a rigid body.
pub proof fn connect_succeeds_exactly_with_both_bodies(
    connector: ConnectorView,
    world: WorldView,
    body: GameObjectId,
)
    ensures
        connector.connect_error(world.objects, body) is None <==> world.objects.contains_key(body)
            && world.objects.contains_key(connector.parent) && world.objects[connector.parent].rigid_body is Some
            && world.objects[body].rigid_body is Some,
{
}

/// A borrow of the live joint that ends with the joint as it was handed out
/// leaves the world as it was.
pub proof fn borrow_without_write_keeps_world(connector: ConnectorView, world: WorldView)
    requires
        connector.live_handle(world.joints) is Some,
    ensures
        connector.world_after_borrow(
            world,
            world.joints[connector.live_handle(world.joints).unwrap()].inside(),
        ) == world,
{
    let handle = connector.live_handle(world.joints).unwrap();
    let entry = world.joints[handle];
    assert(entry.with_inside(entry.inside()) == entry);
    assert(world.joints.insert(handle, entry) =~= world.joints);
}

/// What is written through a borrow of the live joint is what the connector
/// shows as its live joint afterwards, as long as the joint is still a fixed
/// joint; a joint that is no longer fixed is not shown.
pub proof fn write_through_borrow_is_seen(connector: ConnectorView, world: WorldView, inside: JointInside)
    requires
        connector.live_joint(world.joints) is Some,
    ensures
        connector.live_joint(connector.world_after_borrow(world, inside).joints) == if inside.fixed {
            Some(FixedJointFrames::of(inside))
        } else {
            None
        },
{
}

/// A borrow of the live joint reaches nothing but what that one joint holds:
/// the objects, the wake requests, the handles of the set, every other joint
/// and the bodies that the joint ties are afterwards as they were.
pub proof fn borrow_reaches_only_the_live_joint(connector: ConnectorView, world: WorldView, inside: JointInside)
    ensures
        ({
            let after = connector.world_after_borrow(world, inside);
            &&& after.objects == world.objects
            &&& after.wake_requests == world.wake_requests
            &&& after.joints.dom() == world.joints.dom()
            &&& forall|other| #![auto]
                world.joints.contains_key(other) && connector.handle != Some(other) ==> after.joints[other]
                    == world.joints[other]
            &&& forall|handle| #![auto]
                world.joints.contains_key(handle) ==> after.joints[handle].body1 == world.joints[handle].body1
                    && after.joints[handle].body2 == world.joints[handle].body2
        }),
{
    let after = connector.world_after_borrow(world, inside);
    assert(after.joints.dom() =~= world.joints.dom());
}

} // verus!
