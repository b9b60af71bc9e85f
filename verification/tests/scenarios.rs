use joint_connector::connector::{FixedJointConnnector, FixedJointFrames};
use joint_connector::error::FixedJointComponentError;
use joint_connector::geometry::{Frame, Point, Rotation};
use joint_connector::objects::{BodyHandle, GameObjectId};
use joint_connector::registry::JointHandle;
use joint_connector::world::World;
use rapier3d::dynamics::{ImpulseJointHandle, JointAxesMask, RevoluteJointBuilder, RigidBodyHandle};
use rapier3d::na::{Isometry3, Point3, Quaternion, Translation3, Unit, Vector3};

fn point(x: f32, y: f32, z: f32) -> Point {
    Point { x: x.to_bits(), y: y.to_bits(), z: z.to_bits() }
}

fn frame(rotation: [f32; 4], translation: [f32; 3]) -> Frame {
    Frame {
        rotation: Rotation {
            i: rotation[0].to_bits(),
            j: rotation[1].to_bits(),
            k: rotation[2].to_bits(),
            w: rotation[3].to_bits(),
        },
        translation: point(translation[0], translation[1], translation[2]),
    }
}

fn identity() -> Frame {
    frame([0.0, 0.0, 0.0, 1.0], [0.0, 0.0, 0.0])
}

/// A quarter turn about the z axis, moved to (1, 2, 3).
fn quarter_turn() -> Frame {
    let h = std::f32::consts::FRAC_1_SQRT_2;
    frame([0.0, 0.0, h, h], [1.0, 2.0, 3.0])
}

fn body(index: u32) -> BodyHandle {
    BodyHandle { index, generation: 0 }
}

fn raw(handle: JointHandle) -> ImpulseJointHandle {
    ImpulseJointHandle::from_raw_parts(handle.index, handle.generation)
}

/// A world with two objects, each with a rigid body where asked for.
fn world_with(owner_body: bool, peer_body: bool) -> (World, GameObjectId, GameObjectId) {
    let mut world = World::new();
    let owner = world.objects.spawn();
    let peer = world.objects.spawn();
    if owner_body {
        assert!(world.objects.attach_rigid_body(owner, body(0)));
    }
    if peer_body {
        assert!(world.objects.attach_rigid_body(peer, body(1)));
    }
    (world, owner, peer)
}

#[test]
fn peer_without_rigid_body_is_refused() {
    let (mut world, owner, peer) = world_with(true, false);
    let mut connector = FixedJointConnnector::new(owner);
    assert_eq!(
        connector.try_connect_to(peer, &mut world),
        Err(FixedJointComponentError::NoConnectorRigidBody)
    );
    assert_eq!(connector.joint(&world), None);
    assert_eq!(connector.connected(), None);
    assert_eq!(connector.handle(), None);
    assert!(world.physics.impulse_joint_set.is_empty());
}

#[test]
fn default_geometry_gives_identity_joint() {
    let (mut world, owner, peer) = world_with(true, true);
    let mut connector = FixedJointConnnector::new(owner);
    assert_eq!(connector.try_connect_to(peer, &mut world), Ok(()));
    let joint = connector.joint(&world).expect("a live joint");
    assert_eq!(joint.local_anchor1(), point(0.0, 0.0, 0.0));
    assert_eq!(joint.local_anchor2(), point(0.0, 0.0, 0.0));
    assert_eq!(joint.local_frame1(), identity());
    assert_eq!(joint.local_frame2(), identity());
    assert_eq!(connector.connected(), Some(peer));
    assert!(connector.handle().is_some());
    assert_eq!(world.physics.impulse_joint_set.len(), 1);
}

#[test]
fn anchor_set_while_connected_reaches_the_joint() {
    let (mut world, owner, peer) = world_with(true, true);
    let mut connector = FixedJointConnnector::new(owner);
    assert_eq!(connector.try_connect_to(peer, &mut world), Ok(()));
    let handle = connector.handle();
    let p = point(1.5, -2.0, 0.25);
    connector.set_local_anchor1(p, &mut world);
    assert_eq!(connector.joint(&world).expect("a live joint").local_anchor1(), p);
    assert_eq!(connector.local_anchor1(), p);
    assert_eq!(connector.handle(), handle);
    assert_eq!(connector.connected(), Some(peer));
}

#[test]
fn new_connector_is_unconnected_with_default_geometry() {
    let owner = GameObjectId { index: 7 };
    let connector = FixedJointConnnector::new(owner);
    assert_eq!(connector.parent(), owner);
    assert_eq!(connector.connected(), None);
    assert_eq!(connector.handle(), None);
    assert_eq!(connector.local_anchor1(), Point { x: 0, y: 0, z: 0 });
    assert_eq!(connector.local_anchor2(), Point { x: 0, y: 0, z: 0 });
    assert_eq!(connector.local_frame1(), identity());
    assert_eq!(connector.local_frame2(), identity());
}

#[test]
fn origin_and_identity_have_the_expected_bits() {
    assert_eq!(Point::origin(), Point { x: 0, y: 0, z: 0 });
    assert_eq!(
        Frame::identity(),
        Frame {
            rotation: Rotation { i: 0, j: 0, k: 0, w: 0x3f80_0000 },
            translation: Point { x: 0, y: 0, z: 0 },
        }
    );
    assert_eq!(joint_connector::geometry::ONE_BITS, 1.0f32.to_bits());
}

#[test]
fn missing_peer_is_refused() {
    let (mut world, owner, _peer) = world_with(true, true);
    let mut connector = FixedJointConnnector::new(owner);
    let nobody = GameObjectId { index: 99 };
    assert_eq!(
        connector.try_connect_to(nobody, &mut world),
        Err(FixedJointComponentError::InvalidConnector)
    );
    assert_eq!(connector.connected(), None);
    assert_eq!(connector.handle(), None);
    assert!(world.physics.impulse_joint_set.is_empty());
}

#[test]
fn despawned_peer_is_refused() {
    let (mut world, owner, peer) = world_with(true, true);
    assert!(world.objects.despawn(peer));
    let mut connector = FixedJointConnnector::new(owner);
    assert_eq!(
        connector.try_connect_to(peer, &mut world),
        Err(FixedJointComponentError::InvalidConnector)
    );
    assert_eq!(connector.joint(&world), None);
}

#[test]
fn failed_connect_keeps_an_existing_connection() {
    let (mut world, owner, peer) = world_with(true, true);
    let bare = world.objects.spawn();
    let mut connector = FixedJointConnnector::new(owner);
    assert_eq!(connector.try_connect_to(peer, &mut world), Ok(()));
    let handle = connector.handle();
    let joint = connector.joint(&world);

    assert_eq!(
        connector.try_connect_to(GameObjectId { index: 99 }, &mut world),
        Err(FixedJointComponentError::InvalidConnector)
    );
    assert_eq!(
        connector.try_connect_to(bare, &mut world),
        Err(FixedJointComponentError::NoConnectorRigidBody)
    );
    assert_eq!(connector.connected(), Some(peer));
    assert_eq!(connector.handle(), handle);
    assert_eq!(connector.joint(&world), joint);
    assert_eq!(world.physics.impulse_joint_set.len(), 1);
}

#[test]
fn owner_without_rigid_body_is_refused() {
    let (mut world, owner, peer) = world_with(false, true);
    let mut connector = FixedJointConnnector::new(owner);
    assert_eq!(
        connector.try_connect_to(peer, &mut world),
        Err(FixedJointComponentError::NoParentRigidBody)
    );
    assert_eq!(connector.connected(), None);
    assert_eq!(connector.handle(), None);
    assert_eq!(connector.joint(&world), None);
    assert!(world.physics.impulse_joint_set.is_empty());
}

#[test]
fn errors_come_in_order() {
    // Neither side has a rigid body: the owner is looked at first.
    let (mut world, owner, peer) = world_with(false, false);
    let mut connector = FixedJointConnnector::new(owner);
    assert_eq!(
        connector.try_connect_to(peer, &mut world),
        Err(FixedJointComponentError::NoParentRigidBody)
    );
    // The peer is missing and the owner has no rigid body: the peer is looked
    // for first.
    assert_eq!(
        connector.try_connect_to(GameObjectId { index: 99 }, &mut world),
        Err(FixedJointComponentError::InvalidConnector)
    );
    // An owner that is gone has no rigid body.
    let (mut world, owner, peer) = world_with(true, true);
    assert!(world.objects.despawn(owner));
    let mut connector = FixedJointConnnector::new(owner);
    assert_eq!(
        connector.try_connect_to(peer, &mut world),
        Err(FixedJointComponentError::NoParentRigidBody)
    );
}

#[test]
fn connect_uses_the_cached_values() {
    let (mut world, owner, peer) = world_with(true, true);
    let mut connector = FixedJointConnnector::new(owner);
    let first = quarter_turn();
    let second = frame([0.5, 0.5, 0.5, 0.5], [-4.0, 0.0, 8.5]);
    connector.set_local_frame1(first, &mut world);
    connector.set_local_frame2(second, &mut world);
    connector.set_local_anchor1(point(1.0, 2.0, 3.0), &mut world);
    connector.set_local_anchor2(point(-4.0, 0.0, 8.5), &mut world);
    assert!(world.physics.impulse_joint_set.is_empty());
    assert_eq!(connector.joint(&world), None);

    assert_eq!(connector.try_connect_to(peer, &mut world), Ok(()));
    let joint = connector.joint(&world).expect("a live joint");
    assert_eq!(joint, FixedJointFrames { local_frame1: first, local_frame2: second });
    assert_eq!(joint.local_frame1(), connector.local_frame1());
    assert_eq!(joint.local_frame2(), connector.local_frame2());
    assert_eq!(joint.local_anchor1(), connector.local_anchor1());
    assert_eq!(joint.local_anchor2(), connector.local_anchor2());
}

#[test]
fn at_connect_the_frame_decides_the_anchor() {
    let (mut world, owner, peer) = world_with(true, true);
    let mut connector = FixedJointConnnector::new(owner);
    connector.set_local_anchor1(point(9.0, 9.0, 9.0), &mut world);
    connector.set_local_frame1(quarter_turn(), &mut world);
    assert_eq!(connector.try_connect_to(peer, &mut world), Ok(()));
    let joint = connector.joint(&world).expect("a live joint");
    assert_eq!(joint.local_frame1(), quarter_turn());
    assert_eq!(joint.local_anchor1(), point(1.0, 2.0, 3.0));
    assert_eq!(connector.local_anchor1(), point(9.0, 9.0, 9.0));
}

#[test]
fn connect_hands_rapier_the_bodies_and_the_frames() {
    let (mut world, owner, peer) = world_with(true, true);
    let mut connector = FixedJointConnnector::new(owner);
    connector.set_local_frame1(quarter_turn(), &mut world);
    connector.set_local_anchor2(point(0.5, 0.25, -1.0), &mut world);
    assert_eq!(connector.try_connect_to(peer, &mut world), Ok(()));

    let handle = connector.handle().expect("a handle");
    let stored = world.physics.impulse_joint_set.get(raw(handle)).expect("a joint in the set");
    assert_eq!(stored.body1, RigidBodyHandle::from_raw_parts(0, 0));
    assert_eq!(stored.body2, RigidBodyHandle::from_raw_parts(1, 0));
    let fixed = stored.data.as_fixed().expect("a fixed joint");
    let h = std::f32::consts::FRAC_1_SQRT_2;
    let expected = Isometry3::from_parts(
        Translation3::new(1.0, 2.0, 3.0),
        Unit::new_unchecked(Quaternion::new(h, 0.0, 0.0, h)),
    );
    assert_eq!(*fixed.local_frame1(), expected);
    assert_eq!(fixed.local_anchor1(), Point3::new(1.0, 2.0, 3.0));
    // The second anchor was cached, but the identity frame cached with it is
    // set after it.
    assert_eq!(*fixed.local_frame2(), Isometry3::identity());
    assert!(stored.data.locked_axes == JointAxesMask::LOCKED_FIXED_AXES);
    assert!(stored.data.contacts_enabled);
}

#[test]
fn disconnect_twice_is_disconnect_once() {
    let (mut world, owner, peer) = world_with(true, true);
    let mut connector = FixedJointConnnector::new(owner);
    connector.set_local_anchor1(point(1.0, 0.0, 0.0), &mut world);
    assert_eq!(connector.try_connect_to(peer, &mut world), Ok(()));
    let handle = connector.handle().expect("a handle");

    connector.disconnect(&mut world);
    assert_eq!(connector.connected(), None);
    assert_eq!(connector.handle(), None);
    assert_eq!(connector.joint(&world), None);
    assert!(!world.physics.impulse_joint_set.contains(raw(handle)));
    assert!(world.physics.impulse_joint_set.is_empty());
    assert_eq!(connector.local_anchor1(), point(1.0, 0.0, 0.0));

    connector.disconnect(&mut world);
    assert_eq!(connector.connected(), None);
    assert_eq!(connector.handle(), None);
    assert_eq!(connector.joint(&world), None);
    assert!(world.physics.impulse_joint_set.is_empty());
    assert_eq!(connector.local_anchor1(), point(1.0, 0.0, 0.0));
}

#[test]
fn disconnect_of_an_unconnected_connector_does_nothing() {
    let (mut world, owner, peer) = world_with(true, true);
    let mut other = FixedJointConnnector::new(peer);
    assert_eq!(other.try_connect_to(owner, &mut world), Ok(()));
    let mut connector = FixedJointConnnector::new(owner);
    connector.disconnect(&mut world);
    assert_eq!(connector.connected(), None);
    assert_eq!(world.physics.impulse_joint_set.len(), 1);
    assert!(other.joint(&world).is_some());
}

#[test]
fn setters_while_disconnected_touch_only_the_cache() {
    let (mut world, owner, peer) = world_with(true, true);
    let mut other = FixedJointConnnector::new(peer);
    assert_eq!(other.try_connect_to(owner, &mut world), Ok(()));
    let before = other.joint(&world);

    let mut connector = FixedJointConnnector::new(owner);
    connector.set_local_anchor1(point(1.0, 1.0, 1.0), &mut world);
    connector.set_local_anchor2(point(2.0, 2.0, 2.0), &mut world);
    connector.set_local_frame1(quarter_turn(), &mut world);
    connector.set_local_frame2(frame([1.0, 0.0, 0.0, 0.0], [0.0, 5.0, 0.0]), &mut world);
    assert_eq!(connector.local_anchor1(), point(1.0, 1.0, 1.0));
    assert_eq!(connector.local_anchor2(), point(2.0, 2.0, 2.0));
    assert_eq!(connector.local_frame1(), quarter_turn());
    assert_eq!(connector.local_frame2(), frame([1.0, 0.0, 0.0, 0.0], [0.0, 5.0, 0.0]));
    assert_eq!(connector.joint(&world), None);
    assert_eq!(connector.connected(), None);
    assert_eq!(world.physics.impulse_joint_set.len(), 1);
    assert_eq!(other.joint(&world), before);
}

#[test]
fn frames_set_while_connected_reach_the_joint() {
    let (mut world, owner, peer) = world_with(true, true);
    let mut connector = FixedJointConnnector::new(owner);
    assert_eq!(connector.try_connect_to(peer, &mut world), Ok(()));
    let second = frame([1.0, 0.0, 0.0, 0.0], [0.0, 5.0, 0.0]);

    connector.set_local_frame1(quarter_turn(), &mut world);
    assert_eq!(
        connector.joint(&world),
        Some(FixedJointFrames { local_frame1: quarter_turn(), local_frame2: identity() })
    );
    connector.set_local_frame2(second, &mut world);
    assert_eq!(
        connector.joint(&world),
        Some(FixedJointFrames { local_frame1: quarter_turn(), local_frame2: second })
    );
    assert_eq!(connector.local_frame1(), quarter_turn());
    assert_eq!(connector.local_frame2(), second);
}

#[test]
fn anchor_set_while_connected_keeps_the_rotation() {
    let (mut world, owner, peer) = world_with(true, true);
    let mut connector = FixedJointConnnector::new(owner);
    connector.set_local_frame1(quarter_turn(), &mut world);
    connector.set_local_frame2(quarter_turn(), &mut world);
    assert_eq!(connector.try_connect_to(peer, &mut world), Ok(()));

    connector.set_local_anchor2(point(7.0, 8.0, 9.0), &mut world);
    let joint = connector.joint(&world).expect("a live joint");
    assert_eq!(joint.local_anchor2(), point(7.0, 8.0, 9.0));
    assert_eq!(joint.local_frame2().rotation, quarter_turn().rotation);
    assert_eq!(joint.local_frame2().translation, point(7.0, 8.0, 9.0));
    assert_eq!(joint.local_frame1(), quarter_turn());
    assert_eq!(connector.local_anchor2(), point(7.0, 8.0, 9.0));
    // The cached frame is not the joint's frame any more.
    assert_eq!(connector.local_frame2(), quarter_turn());

    let stored = world.physics.impulse_joint_set.get(raw(connector.handle().expect("a handle")));
    let fixed = stored.expect("a joint in the set").data.as_fixed().expect("a fixed joint");
    assert_eq!(fixed.local_anchor2(), Point3::new(7.0, 8.0, 9.0));
    assert_eq!(fixed.local_frame2().translation.vector, Vector3::new(7.0, 8.0, 9.0));
}

#[test]
fn delete_leaves_no_joint_behind() {
    let (mut world, owner, peer) = world_with(true, true);
    let mut connector = FixedJointConnnector::new(owner);
    assert_eq!(connector.try_connect_to(peer, &mut world), Ok(()));
    let handle = connector.handle().expect("a handle");
    assert!(world.physics.impulse_joint_set.contains(raw(handle)));

    connector.delete(&mut world);
    assert!(world.objects.despawn(owner));
    assert!(!world.physics.impulse_joint_set.contains(raw(handle)));
    assert!(world.physics.impulse_joint_set.is_empty());
    assert_eq!(connector.connected(), None);
    assert_eq!(connector.handle(), None);
    assert_eq!(connector.joint(&world), None);
}

#[test]
fn delete_of_an_unconnected_connector_does_nothing() {
    let (mut world, owner, _peer) = world_with(true, true);
    let mut connector = FixedJointConnnector::new(owner);
    connector.delete(&mut world);
    assert_eq!(connector.connected(), None);
    assert!(world.physics.impulse_joint_set.is_empty());
}

#[test]
fn reconnect_releases_the_earlier_joint() {
    let (mut world, owner, peer) = world_with(true, true);
    let third = world.objects.spawn();
    assert!(world.objects.attach_rigid_body(third, body(2)));
    let mut connector = FixedJointConnnector::new(owner);
    assert_eq!(connector.try_connect_to(peer, &mut world), Ok(()));
    let earlier = connector.handle().expect("a handle");

    assert_eq!(connector.try_connect_to(third, &mut world), Ok(()));
    let later = connector.handle().expect("a handle");
    assert_ne!(earlier, later);
    assert_eq!(connector.connected(), Some(third));
    assert!(!world.physics.impulse_joint_set.contains(raw(earlier)));
    assert_eq!(world.physics.impulse_joint_set.len(), 1);
    let stored = world.physics.impulse_joint_set.get(raw(later)).expect("a joint in the set");
    assert_eq!(stored.body2, RigidBodyHandle::from_raw_parts(2, 0));
}

#[test]
fn connector_can_join_its_owner_to_itself() {
    let (mut world, owner, _peer) = world_with(true, true);
    let mut connector = FixedJointConnnector::new(owner);
    assert_eq!(connector.try_connect_to(owner, &mut world), Ok(()));
    assert_eq!(connector.connected(), Some(owner));
    assert!(connector.joint(&world).is_some());
    connector.disconnect(&mut world);
    assert!(world.physics.impulse_joint_set.is_empty());
}

#[test]
fn other_joints_are_left_alone() {
    let (mut world, owner, peer) = world_with(true, true);
    let hinge = RevoluteJointBuilder::new(Vector3::x_axis()).local_anchor1(Point3::new(1.0, 0.0, 0.0)).build();
    let foreign = world.physics.impulse_joint_set.insert(
        RigidBodyHandle::from_raw_parts(3, 0),
        RigidBodyHandle::from_raw_parts(4, 0),
        hinge,
        true,
    );
    let before = world.physics.impulse_joint_set.get(foreign).expect("the hinge").clone();

    let mut connector = FixedJointConnnector::new(owner);
    assert_eq!(connector.try_connect_to(peer, &mut world), Ok(()));
    assert_ne!(Some(foreign), connector.handle().map(raw));
    connector.set_local_anchor1(point(3.0, 3.0, 3.0), &mut world);
    connector.set_local_frame2(quarter_turn(), &mut world);
    assert_eq!(world.physics.impulse_joint_set.len(), 2);
    assert!(*world.physics.impulse_joint_set.get(foreign).expect("the hinge") == before);
    connector.disconnect(&mut world);
    assert_eq!(world.physics.impulse_joint_set.len(), 1);
    assert!(*world.physics.impulse_joint_set.get(foreign).expect("the hinge") == before);
}

#[test]
fn joint_removed_behind_the_connector_is_absent() {
    let (mut world, owner, peer) = world_with(true, true);
    let mut connector = FixedJointConnnector::new(owner);
    assert_eq!(connector.try_connect_to(peer, &mut world), Ok(()));
    let handle = connector.handle().expect("a handle");
    assert!(world.physics.impulse_joint_set.remove(raw(handle), false).is_some());

    assert_eq!(connector.joint(&world), None);
    assert!(connector.joint_mut(&mut world).is_none());
    // The connector still holds its peer and its handle.
    assert_eq!(connector.connected(), Some(peer));
    assert_eq!(connector.handle(), Some(handle));
    connector.set_local_anchor1(point(1.0, 2.0, 3.0), &mut world);
    assert_eq!(connector.local_anchor1(), point(1.0, 2.0, 3.0));
    assert_eq!(connector.joint(&world), None);
    assert!(world.physics.impulse_joint_set.is_empty());

    connector.disconnect(&mut world);
    assert_eq!(connector.connected(), None);
    assert_eq!(connector.handle(), None);
}

#[test]
fn joint_that_is_no_longer_fixed_is_absent() {
    let (mut world, owner, peer) = world_with(true, true);
    let mut connector = FixedJointConnnector::new(owner);
    assert_eq!(connector.try_connect_to(peer, &mut world), Ok(()));
    let handle = connector.handle().expect("a handle");
    connector.joint_mut(&mut world).expect("a live joint").data.locked_axes = JointAxesMask::LOCKED_REVOLUTE_AXES;

    assert_eq!(connector.joint(&world), None);
    assert!(connector.joint_mut(&mut world).is_none());
    connector.set_local_frame1(quarter_turn(), &mut world);
    let stored = world.physics.impulse_joint_set.get(raw(handle)).expect("a joint in the set");
    assert_eq!(stored.data.local_frame1, Isometry3::identity());
    assert_eq!(connector.local_frame1(), quarter_turn());
}

#[test]
fn joint_mut_changes_the_live_joint() {
    let (mut world, owner, peer) = world_with(true, true);
    let mut connector = FixedJointConnnector::new(owner);
    assert!(connector.joint_mut(&mut world).is_none());
    assert_eq!(connector.try_connect_to(peer, &mut world), Ok(()));

    let live = connector.joint_mut(&mut world).expect("a live joint");
    live.set_local_anchor1(Point3::new(4.0, 5.0, 6.0));
    live.set_contacts_enabled(false);
    let joint = connector.joint(&world).expect("a live joint");
    assert_eq!(joint.local_anchor1(), point(4.0, 5.0, 6.0));
    assert_eq!(joint.local_frame2(), identity());
    // The cached anchor is what it was.
    assert_eq!(connector.local_anchor1(), point(0.0, 0.0, 0.0));
    assert_eq!(world.physics.impulse_joint_set.len(), 1);
}

#[test]
fn joint_mut_without_write_changes_nothing() {
    let (mut world, owner, peer) = world_with(true, true);
    let mut connector = FixedJointConnnector::new(owner);
    connector.set_local_frame1(quarter_turn(), &mut world);
    assert_eq!(connector.try_connect_to(peer, &mut world), Ok(()));
    connector.set_local_anchor2(point(7.0, 8.0, 9.0), &mut world);
    let handle = connector.handle().expect("a handle");
    let shown = connector.joint(&world);
    let stored = world.physics.impulse_joint_set.get(raw(handle)).expect("a joint in the set").clone();

    {
        let live = connector.joint_mut(&mut world).expect("a live joint");
        // What is handed out is what `joint` shows.
        assert_eq!(*live.local_frame1(), stored.data.local_frame1);
        assert_eq!(*live.local_frame2(), stored.data.local_frame2);
        assert_eq!(live.local_anchor2(), Point3::new(7.0, 8.0, 9.0));
    }
    assert_eq!(connector.joint(&world), shown);
    assert!(*world.physics.impulse_joint_set.get(raw(handle)).expect("a joint in the set") == stored);
    assert_eq!(connector.handle(), Some(handle));
    assert_eq!(connector.connected(), Some(peer));
    assert_eq!(world.physics.impulse_joint_set.len(), 1);
}

#[test]
fn frame_written_through_joint_mut_is_shown() {
    let (mut world, owner, peer) = world_with(true, true);
    let mut connector = FixedJointConnnector::new(owner);
    assert_eq!(connector.try_connect_to(peer, &mut world), Ok(()));
    let h = std::f32::consts::FRAC_1_SQRT_2;
    let turned = Isometry3::from_parts(
        Translation3::new(1.0, 2.0, 3.0),
        Unit::new_unchecked(Quaternion::new(h, 0.0, 0.0, h)),
    );
    connector.joint_mut(&mut world).expect("a live joint").set_local_frame2(turned);
    assert_eq!(
        connector.joint(&world),
        Some(FixedJointFrames { local_frame1: identity(), local_frame2: quarter_turn() })
    );
    assert_eq!(connector.local_frame2(), identity());
}

#[test]
fn connect_to_reports_a_failure_as_a_warning() {
    let (mut world, owner, peer) = world_with(true, false);
    let mut connector = FixedJointConnnector::new(owner);
    assert_eq!(
        connector.connect_to(GameObjectId { index: 99 }, &mut world),
        Some(String::from("FixedJointComponent: Connector doesn't exist"))
    );
    assert_eq!(
        connector.connect_to(peer, &mut world),
        Some(String::from("FixedJointComponent: Connector doesn't have a rigid body"))
    );
    assert_eq!(connector.connected(), None);
    assert_eq!(connector.joint(&world), None);

    let (mut world, owner, peer) = world_with(false, true);
    let mut connector = FixedJointConnnector::new(owner);
    assert_eq!(
        connector.connect_to(peer, &mut world),
        Some(String::from("FixedJointComponent: Parent doesn't have a rigid body"))
    );
    assert_eq!(connector.connected(), None);
    assert!(world.physics.impulse_joint_set.is_empty());
}

#[test]
fn connect_to_connects_without_a_warning() {
    let (mut world, owner, peer) = world_with(true, true);
    let mut connector = FixedJointConnnector::new(owner);
    assert_eq!(connector.connect_to(peer, &mut world), None);
    assert_eq!(connector.connected(), Some(peer));
    assert_eq!(
        connector.joint(&world),
        Some(FixedJointFrames { local_frame1: identity(), local_frame2: identity() })
    );
}

#[test]
fn error_messages() {
    assert_eq!(
        FixedJointComponentError::InvalidConnector.message(),
        "FixedJointComponent: Connector doesn't exist"
    );
    assert_eq!(
        FixedJointComponentError::NoParentRigidBody.message(),
        "FixedJointComponent: Parent doesn't have a rigid body"
    );
    assert_eq!(
        FixedJointComponentError::NoConnectorRigidBody.message(),
        "FixedJointComponent: Connector doesn't have a rigid body"
    );
}

#[test]
fn peer_and_handle_are_set_together() {
    let (mut world, owner, peer) = world_with(true, true);
    let mut connector = FixedJointConnnector::new(owner);
    assert_eq!(connector.connected().is_some(), connector.handle().is_some());
    let _ = connector.try_connect_to(GameObjectId { index: 99 }, &mut world);
    assert_eq!(connector.connected().is_some(), connector.handle().is_some());
    let _ = connector.try_connect_to(peer, &mut world);
    assert!(connector.connected().is_some() && connector.handle().is_some());
    connector.set_local_frame1(quarter_turn(), &mut world);
    assert!(connector.connected().is_some() && connector.handle().is_some());
    connector.disconnect(&mut world);
    assert!(connector.connected().is_none() && connector.handle().is_none());
    connector.delete(&mut world);
    assert!(connector.connected().is_none() && connector.handle().is_none());
}

#[test]
fn coordinates_keep_their_bits() {
    // A negative zero and a not-a-number are stored as they are given.
    let (mut world, owner, peer) = world_with(true, true);
    let mut connector = FixedJointConnnector::new(owner);
    assert_eq!(connector.try_connect_to(peer, &mut world), Ok(()));
    let odd = Point { x: (-0.0f32).to_bits(), y: 0x7fc0_0001, z: f32::INFINITY.to_bits() };
    connector.set_local_anchor1(odd, &mut world);
    assert_eq!(connector.joint(&world).expect("a live joint").local_anchor1(), odd);
}
