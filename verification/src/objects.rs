//! The objects of a scene and the rigid body that each may carry.

use vstd::prelude::*;

verus! {

/// The identity of an object of the scene.
#[derive(Clone, Copy, Debug, PartialEq, Eq, Structural)]
pub struct GameObjectId {
    pub index: usize,
}

/// A handle of a rigid body of the physics world: its slot and the generation
/// of that slot.
#[derive(Clone, Copy, Debug, PartialEq, Eq, Structural)]
pub struct BodyHandle {
    pub index: u32,
    pub generation: u32,
}

/// What the directory knows of one object.
#[derive(Clone, Copy, Debug, PartialEq, Eq, Structural)]
pub struct ObjectRecord {
    /// The rigid body attached to the object, if it has one.
    pub rigid_body: Option<BodyHandle>,
}

/// One slot of the directory. A slot is never handed out twice, so the
/// identity of a removed object stays unused.
#[derive(Clone, Copy, Debug)]
struct ObjectSlot {
    alive: bool,
    record: ObjectRecord,
}

/// The objects that currently exist, each under its identity.
pub struct ObjectDirectory {
    slots: Vec<ObjectSlot>,
}

impl View for ObjectDirectory {
    type V = Map<GameObjectId, ObjectRecord>;

    closed spec fn view(&self) -> Map<GameObjectId, ObjectRecord> {
        Map::new(
            |id: GameObjectId| id.index < self.slots@.len() && self.slots@[id.index as int].alive,
            |id: GameObjectId| self.slots@[id.index as int].record,
        )
    }
}

/// The rigid body that `objects` records for `id`: none where the object does
/// not exist or carries no rigid body.
pub open spec fn rigid_body_of(objects: Map<GameObjectId, ObjectRecord>, id: GameObjectId) -> Option<
    BodyHandle,
> {
    if objects.contains_key(id) {
        objects[id].rigid_body
    } else {
        None
    }
}

impl ObjectDirectory {
    /// A directory without objects.
    pub fn new() -> (directory: ObjectDirectory)
        ensures
            directory@ == Map::<GameObjectId, ObjectRecord>::empty(),
    {
        let directory = ObjectDirectory { slots: Vec::new() };
        assert(directory@ =~= Map::<GameObjectId, ObjectRecord>::empty());
        directory
    }

    /// Adds an object without a rigid body and returns its identity, which no
    /// object had before.
    pub fn spawn(&mut self) -> (id: GameObjectId)
        ensures
            !old(self)@.contains_key(id),
            final(self)@ == old(self)@.insert(id, ObjectRecord { rigid_body: None }),
    {
        let id = GameObjectId { index: self.slots.len() };
        self.slots.push(ObjectSlot { alive: true, record: ObjectRecord { rigid_body: None } });
        assert(self@ =~= old(self)@.insert(id, ObjectRecord { rigid_body: None }));
        id
    }

    /// Whether an object with this identity exists.
    pub fn contains(&self, id: GameObjectId) -> (found: bool)
        ensures
            found == self@.contains_key(id),
    {
        id.index < self.slots.len() && self.slots[id.index].alive
    }

    /// The rigid body attached to the object, if the object exists and has one.
    pub fn rigid_body(&self, id: GameObjectId) -> (body: Option<BodyHandle>)
        ensures
            body == rigid_body_of(self@, id),
    {
        if self.contains(id) {
            self.slots[id.index].record.rigid_body
        } else {
            None
        }
    }

    /// Attaches a rigid body to an existing object, in place of the one it had.
    /// Returns whether the object exists; nothing changes where it does not.
    pub fn attach_rigid_body(&mut self, id: GameObjectId, body: BodyHandle) -> (attached: bool)
        ensures
            attached == old(self)@.contains_key(id),
            attached ==> final(self)@ == old(self)@.insert(id, ObjectRecord { rigid_body: Some(body) }),
            !attached ==> final(self)@ == old(self)@,
    {
        if self.contains(id) {
            self.slots.set(id.index, ObjectSlot { alive: true, record: ObjectRecord { rigid_body: Some(body) } });
            assert(self@ =~= old(self)@.insert(id, ObjectRecord { rigid_body: Some(body) }));
            true
        } else {
            false
        }
    }

    /// Removes an object. Returns whether it existed; nothing changes where it
    /// did not.
    pub fn despawn(&mut self, id: GameObjectId) -> (removed: bool)
        ensures
            removed == old(self)@.contains_key(id),
            final(self)@ == old(self)@.remove(id),
    {
        if self.contains(id) {
            self.slots.set(id.index, ObjectSlot { alive: false, record: ObjectRecord { rigid_body: None } });
            assert(self@ =~= old(self)@.remove(id));
            true
        } else {
            assert(self@ =~= old(self)@.remove(id));
            false
        }
    }
}

} // verus!
