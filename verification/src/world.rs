//! The store of entities that the stages of a tick work on.

use vstd::prelude::*;
use crate::movement_system::{GravityAffected, Physics, Velocity};
use crate::player::{Player, PlayerCamera};
use crate::transform::Transform;

verus! {

/// One entity: its placement, and whichever of the other components it has.
#[derive(Clone, Copy, Debug, PartialEq, Eq)]
pub struct Entity {
    pub transform: Transform,
    pub velocity: Option<Velocity>,
    pub physics: Option<Physics>,
    pub gravity_affected: Option<GravityAffected>,
    pub player: Option<Player>,
    pub camera: Option<PlayerCamera>,
}

/// Why the store did not take an entity in.
#[derive(Clone, Copy, Debug, PartialEq, Eq, Structural)]
pub enum SpawnError {
    /// The entity is both an actor and a camera.
    PlayerIsCamera,
    /// The entity is an actor, and the store holds one already.
    SecondPlayer,
    /// The entity is a camera, and the store holds one already.
    SecondCamera,
}

/// Whether the entity in slot `id` of `entities` is an actor.
pub open spec fn holds_player(entities: Seq<Entity>, id: int) -> bool {
    0 <= id < entities.len() && entities[id].player is Some
}

/// Whether the entity in slot `id` of `entities` is a camera.
pub open spec fn holds_camera(entities: Seq<Entity>, id: int) -> bool {
    0 <= id < entities.len() && entities[id].camera is Some
}

/// The slot of an actor among `entities`, if there is one.
pub open spec fn player_slot(entities: Seq<Entity>) -> Option<int> {
    if exists|id: int| holds_player(entities, id) {
        Some(choose|id: int| holds_player(entities, id))
    } else {
        None
    }
}

/// The slot of a camera among `entities`, if there is one.
pub open spec fn camera_slot(entities: Seq<Entity>) -> Option<int> {
    if exists|id: int| holds_camera(entities, id) {
        Some(choose|id: int| holds_camera(entities, id))
    } else {
        None
    }
}

/// There is at most one actor and at most one camera among `entities`, and
/// they are not the same entity.
pub open spec fn singletons(entities: Seq<Entity>) -> bool {
    &&& forall|i: int, j: int|
        holds_player(entities, i) && holds_player(entities, j) ==> i == j
    &&& forall|i: int, j: int|
        holds_camera(entities, i) && holds_camera(entities, j) ==> i == j
    &&& forall|i: int| !(holds_player(entities, i) && holds_camera(entities, i))
}

/// Where `player_slot` finds an actor, it is the only one; where it finds
/// none, there is none.
pub proof fn lemma_player_slot(entities: Seq<Entity>)
    requires
        singletons(entities),
    ensures
        match player_slot(entities) {
            Some(slot) => {
                &&& holds_player(entities, slot)
                &&& forall|id: int|
                    0 <= id < entities.len() && id != slot ==> (#[trigger] entities[id]).player
                        is None
            },
            None => forall|id: int|
                0 <= id < entities.len() ==> (#[trigger] entities[id]).player is None,
        },
{
    match player_slot(entities) {
        Some(slot) => {
            assert forall|id: int| 0 <= id < entities.len() && id != slot implies (
            #[trigger] entities[id]).player is None by {
                if entities[id].player is Some {
                    assert(holds_player(entities, id));
                }
            }
        },
        None => {
            assert forall|id: int| 0 <= id < entities.len() implies (
            #[trigger] entities[id]).player is None by {
                if entities[id].player is Some {
                    assert(holds_player(entities, id));
                }
            }
        },
    }
}

/// Where `camera_slot` finds a camera, it is the only one; where it finds
/// none, there is none.
pub proof fn lemma_camera_slot(entities: Seq<Entity>)
    requires
        singletons(entities),
    ensures
        match camera_slot(entities) {
            Some(slot) => {
                &&& holds_camera(entities, slot)
                &&& forall|id: int|
                    0 <= id < entities.len() && id != slot ==> (#[trigger] entities[id]).camera
                        is None
            },
            None => forall|id: int|
                0 <= id < entities.len() ==> (#[trigger] entities[id]).camera is None,
        },
{
    match camera_slot(entities) {
        Some(slot) => {
            assert forall|id: int| 0 <= id < entities.len() && id != slot implies (
            #[trigger] entities[id]).camera is None by {
                if entities[id].camera is Some {
                    assert(holds_camera(entities, id));
                }
            }
        },
        None => {
            assert forall|id: int| 0 <= id < entities.len() implies (
            #[trigger] entities[id]).camera is None by {
                if entities[id].camera is Some {
                    assert(holds_camera(entities, id));
                }
            }
        },
    }
}

/// Why `entity` cannot join `entities`, if it cannot.
pub open spec fn spawn_refusal(entities: Seq<Entity>, entity: Entity) -> Option<SpawnError> {
    if entity.player is Some && entity.camera is Some {
        Some(SpawnError::PlayerIsCamera)
    } else if entity.player is Some && player_slot(entities) is Some {
        Some(SpawnError::SecondPlayer)
    } else if entity.camera is Some && camera_slot(entities) is Some {
        Some(SpawnError::SecondCamera)
    } else {
        None
    }
}

/// Whether `after` is an actor exactly if `before` is, and a camera exactly if
/// `before` is.
pub open spec fn same_role(before: Entity, after: Entity) -> bool {
    &&& before.player is Some <==> after.player is Some
    &&& before.camera is Some <==> after.camera is Some
}

/// The slot `id` as a mathematical integer, if there is one.
pub open spec fn slot_of(id: Option<usize>) -> Option<int> {
    match id {
        Some(id) => Some(id as int),
        None => None,
    }
}

/// The entities of a scene, each known by the slot that it was put in.
///
/// A store holds at most one actor and at most one camera. It refuses a second
/// one when it is spawned, so that no stage of a tick ever has to choose
/// between two.
pub struct World {
    entities: Vec<Entity>,
}

impl View for World {
    type V = Seq<Entity>;

    /// The entities by slot.
    closed spec fn view(&self) -> Seq<Entity> {
        self.entities@
    }
}

impl World {
    /// What every store keeps to: at most one actor, at most one camera, and
    /// no entity that is both.
    #[verifier::type_invariant]
    spec fn inv(self) -> bool {
        singletons(self.entities@)
    }

    /// A store without entities.
    pub fn new() -> (r: World)
        ensures
            r@.len() == 0,
    {
        World { entities: Vec::new() }
    }

    /// The number of entities.
    pub fn len(&self) -> (n: usize)
        ensures
            n == self@.len(),
    {
        self.entities.len()
    }

    /// The entity in slot `id`, if there is such a slot.
    pub fn get(&self, id: usize) -> (r: Option<Entity>)
        ensures
            id < self@.len() ==> r == Some(self@[id as int]),
            id >= self@.len() ==> r is None,
    {
        if id < self.entities.len() {
            Some(self.entities[id])
        } else {
            None
        }
    }

    /// The slot of the actor, if there is one. There is never more than one.
    pub fn player_id(&self) -> (r: Option<usize>)
        ensures
            slot_of(r) == player_slot(self@),
            singletons(self@),
    {
        proof {
            use_type_invariant(self);
        }
        let mut id: usize = 0;
        while id < self.entities.len()
            invariant
                singletons(self@),
                id <= self.entities.len(),
                forall|seen: int| 0 <= seen < id ==> !holds_player(self@, seen),
            decreases self.entities.len() - id,
        {
            if self.entities[id].player.is_some() {
                proof {
                    assert(holds_player(self@, id as int));
                }
                return Some(id);
            }
            id = id + 1;
        }
        None
    }

    /// The slot of the camera, if there is one. There is never more than one.
    pub fn camera_id(&self) -> (r: Option<usize>)
        ensures
            slot_of(r) == camera_slot(self@),
            singletons(self@),
    {
        proof {
            use_type_invariant(self);
        }
        let mut id: usize = 0;
        while id < self.entities.len()
            invariant
                singletons(self@),
                id <= self.entities.len(),
                forall|seen: int| 0 <= seen < id ==> !holds_camera(self@, seen),
            decreases self.entities.len() - id,
        {
            if self.entities[id].camera.is_some() {
                proof {
                    assert(holds_camera(self@, id as int));
                }
                return Some(id);
            }
            id = id + 1;
        }
        None
    }

    /// Puts `entity` into a new slot and gives that slot, unless the store
    /// would then hold two actors, two cameras, or an actor that is a camera.
    pub fn spawn(&mut self, entity: Entity) -> (r: Result<usize, SpawnError>)
        ensures
            match r {
                Ok(id) => {
                    &&& spawn_refusal(old(self)@, entity) is None
                    &&& id == old(self)@.len()
                    &&& final(self)@ == old(self)@.push(entity)
                },
                Err(e) => {
                    &&& spawn_refusal(old(self)@, entity) == Some(e)
                    &&& final(self)@ == old(self)@
                },
            },
    {
        proof {
            use_type_invariant(&*self);
        }
        if entity.player.is_some() && entity.camera.is_some() {
            return Err(SpawnError::PlayerIsCamera);
        }
        if entity.player.is_some() && self.player_id().is_some() {
            return Err(SpawnError::SecondPlayer);
        }
        if entity.camera.is_some() && self.camera_id().is_some() {
            return Err(SpawnError::SecondCamera);
        }
        let ghost before = self@;
        let mut entities = Vec::new();
        std::mem::swap(&mut entities, &mut self.entities);
        let id = entities.len();
        entities.push(entity);
        proof {
            let after = entities@;
            assert forall|i: int| holds_player(after, i) && i != id implies holds_player(
                before,
                i,
            ) by {}
            assert forall|i: int| holds_camera(after, i) && i != id implies holds_camera(
                before,
                i,
            ) by {}
        }
        self.entities = entities;
        Ok(id)
    }

    /// Puts `entity` in the place of the one in slot `id`, which must be an
    /// actor or a camera exactly if `entity` is.
    pub(crate) fn replace(&mut self, id: usize, entity: Entity)
        requires
            id < old(self)@.len(),
            same_role(old(self)@[id as int], entity),
        ensures
            final(self)@ == old(self)@.update(id as int, entity),
    {
        proof {
            use_type_invariant(&*self);
        }
        let ghost before = self@;
        let mut entities = Vec::new();
        std::mem::swap(&mut entities, &mut self.entities);
        entities.set(id, entity);
        proof {
            let after = entities@;
            assert forall|i: int| holds_player(before, i) <==> holds_player(after, i) by {}
            assert forall|i: int| holds_camera(before, i) <==> holds_camera(after, i) by {}
        }
        self.entities = entities;
    }
}

} // verus!
