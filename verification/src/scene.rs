//! Scenes: a list of entities with the physics world they live in.

use vstd::prelude::*;
use rapier2d::dynamics::RigidBodySet;
use rapier2d::geometry::ColliderSet;
use crate::events::EngineError;
use crate::game_object::behaviours::UserBehaviourClone;
use crate::game_object::physics::PhysicsData;
use crate::game_object::behaviours_copied;
use crate::game_object::GameObject;
use crate::game_object::GameObjectBuilder;
use crate::physics::body_positions;
use crate::physics::collider_parents;
use crate::physics::collider_tags;
use crate::physics::contact_pairs;
use crate::physics::intersection_pairs;
use crate::physics::parent_lookup;
use crate::physics::ColliderHandle;
use crate::physics::PhysicsWorld;
use crate::physics::RigidBodyHandle;
use crate::tables::DataMap;
use crate::tables::NameTable;
use crate::ui::frontend::HyperFoilAST;
use crate::ui::parse_ui_blob;
use crate::ui::ui_of;

verus! {

pub struct Scene<B> {
    pub game_objects: Vec<GameObject<B>>,
    pub world: PhysicsWorld,
    pub ui_ast: Option<HyperFoilAST>,
    /// Names of the callbacks the user interface may invoke, each with the
    /// number under which the host keeps its code.
    pub function_map: NameTable,
    pub data_map: DataMap,
    pub current_game_object_id: u128,
}

impl<B> Scene<B> {
    /// Entities are numbered in the order they were registered, and the next
    /// number to hand out is the number of entities.
    pub open spec fn wf(&self) -> bool {
        &&& self.current_game_object_id == self.game_objects@.len()
        &&& forall|i: int|
            0 <= i < self.game_objects@.len() ==> (#[trigger] self.game_objects@[i]).id == i
    }

    /// A scene without entities, user interface or data.
    pub fn new() -> (scene: Scene<B>)
        ensures
            scene.wf(),
            scene.game_objects@.len() == 0,
            scene.ui_ast.is_none(),
            (scene.data_map@ == Map::<Seq<char>, Seq<char>>::empty()),
            (scene.function_map@ == Map::<Seq<char>, usize>::empty()),
            body_positions(scene.world.bodies()).dom() == Set::<(u32, u32)>::empty(),
            collider_parents(scene.world.colliders()).dom() == Set::<(u32, u32)>::empty(),
            collider_tags(scene.world.colliders()).dom() == Set::<(u32, u32)>::empty(),
    {
        Scene {
            game_objects: Vec::new(),
            world: PhysicsWorld::new(),
            ui_ast: None,
            function_map: NameTable::new(),
            data_map: DataMap::new(),
            current_game_object_id: 0,
        }
    }

    /// Adds an entity to the scene. A rigid body, if the builder has one,
    /// goes into the body set first; a collider, if it has one, is tagged
    /// with the number of the new entity and inserted, attached to that body
    /// or free-standing. The entity gets the next number and the handles
    /// obtained, and is appended to the list.
    pub fn register_game_object(&mut self, game_object_builder: GameObjectBuilder<B>) -> (object:
        &GameObject<B>)
        requires
            old(self).wf(),
        ensures
            final(self).wf(),
            final(self).game_objects@ == old(self).game_objects@.push(*object),
            object.id == old(self).current_game_object_id,
            object.graphics == game_object_builder.graphics,
            object.behaviours == game_object_builder.behaviours,
            object.pos_x_bits == game_object_builder.pos_x_bits,
            object.pos_y_bits == game_object_builder.pos_y_bits,
            object.inbox@.len() == 0,
            object.physics.rigid_body_handle.is_some() == game_object_builder.rigid_body.is_some(),
            object.physics.collider_handle.is_some() == game_object_builder.collider.is_some(),
            registered_body(
                old(self).world.bodies(),
                final(self).world.bodies(),
                object.physics.rigid_body_handle,
            ),
            registered_collider(
                old(self).world.colliders(),
                final(self).world.colliders(),
                object.physics,
                object.id,
            ),
            final(self).ui_ast == old(self).ui_ast,
            final(self).data_map == old(self).data_map,
            final(self).function_map == old(self).function_map,
    {
        let id: u128 = self.current_game_object_id;
        let rigid_body_handle: Option<RigidBodyHandle> = match game_object_builder.rigid_body {
            Some(body) => Some(self.world.insert_body(body)),
            None => None,
        };
        let collider_handle: Option<ColliderHandle> = match game_object_builder.collider {
            Some(collider) => self.world.insert_collider(collider, id, rigid_body_handle),
            None => None,
        };
        let game_object = GameObject {
            graphics: game_object_builder.graphics,
            behaviours: game_object_builder.behaviours,
            pos_x_bits: game_object_builder.pos_x_bits,
            pos_y_bits: game_object_builder.pos_y_bits,
            physics: PhysicsData { collider_handle, rigid_body_handle },
            id,
            inbox: Vec::new(),
        };
        self.game_objects.push(game_object);
        let last = self.game_objects.len() - 1;
        assert(id == last);
        self.current_game_object_id = id + 1;
        &self.game_objects[last]
    }

    /// Parses a user-interface description and makes it the interface of
    /// the scene. A description that does not parse is refused with its
    /// error and leaves the scene as it is.
    pub fn try_register_ui(&mut self, blob: &str) -> (outcome: Result<(), EngineError>)
        ensures
            match ui_of(blob@) {
                Ok(elements) => {
                    &&& outcome.is_ok()
                    &&& final(self).ui_ast.is_some()
                    &&& final(self).ui_ast.unwrap()@ == elements
                    &&& *final(self) == (Scene { ui_ast: final(self).ui_ast, ..*old(self) })
                },
                Err(e) => {
                    &&& outcome == Err::<(), EngineError>(EngineError::MalformedSceneAsset(e))
                    &&& *final(self) == *old(self)
                },
            },
    {
        match parse_ui_blob(blob) {
            Ok(ui_ast) => {
                self.ui_ast = Some(ui_ast);
                Ok(())
            },
            Err(e) => Err(EngineError::MalformedSceneAsset(e)),
        }
    }

    /// Parses a user-interface description that parses, and makes it the
    /// interface of the scene. A scene cannot be built from a description
    /// that does not parse; whether one does, [`Scene::try_register_ui`]
    /// tells.
    pub fn register_ui(&mut self, blob: &str)
        requires
            ui_of(blob@).is_ok(),
        ensures
            final(self).ui_ast.is_some(),
            final(self).ui_ast.unwrap()@ == ui_of(blob@).unwrap(),
            *final(self) == (Scene { ui_ast: final(self).ui_ast, ..*old(self) }),
    {
        match self.try_register_ui(blob) {
            Ok(()) => {},
            Err(_) => {
                proof {
                    assert(false);
                }
            },
        }
    }

    /// The rigid body that `collider` is attached to. A handle that is not
    /// live in this scene is an error.
    pub fn parent_of(&self, collider: ColliderHandle) -> (parent: Result<
        Option<RigidBodyHandle>,
        EngineError,
    >)
        ensures
            parent == match parent_lookup(self.world.colliders(), collider) {
                Some(found) => Ok::<Option<RigidBodyHandle>, EngineError>(found),
                None => Err::<Option<RigidBodyHandle>, EngineError>(EngineError::MissingHandle),
            },
    {
        match self.world.parent_of(collider) {
            Some(parent) => Ok(parent),
            None => Err(EngineError::MissingHandle),
        }
    }

    /// A deep copy of the scene: entities with their behaviours, each
    /// copied by its `clone_box`, physics world, data and callback names.
    pub fn duplicate(&self) -> (copy: Scene<B>) where B: UserBehaviourClone
        ensures
            self.wf() ==> copy.wf(),
            copy.game_objects@.len() == self.game_objects@.len(),
            forall|i: int|
                0 <= i < self.game_objects@.len() ==> {
                    &&& (#[trigger] copy.game_objects@[i]).id == self.game_objects@[i].id
                    &&& copy.game_objects@[i].physics == self.game_objects@[i].physics
                    &&& copy.game_objects@[i].pos_x_bits == self.game_objects@[i].pos_x_bits
                    &&& copy.game_objects@[i].pos_y_bits == self.game_objects@[i].pos_y_bits
                    &&& copy.game_objects@[i].behaviours@.len()
                        == self.game_objects@[i].behaviours@.len()
                    &&& copy.game_objects@[i].pending() == self.game_objects@[i].pending()
                    &&& copy.game_objects@[i].graphics == self.game_objects@[i].graphics
                    &&& behaviours_copied(self.game_objects@[i], copy.game_objects@[i])
                },
            copy.world.same_as(self.world),
            body_positions(copy.world.bodies()) == body_positions(self.world.bodies()),
            collider_parents(copy.world.colliders()) == collider_parents(self.world.colliders()),
            collider_tags(copy.world.colliders()) == collider_tags(self.world.colliders()),
            contact_pairs(copy.world.pairs()) == contact_pairs(self.world.pairs()),
            intersection_pairs(copy.world.pairs()) == intersection_pairs(
                self.world.pairs(),
            ),
            copy.data_map@ == self.data_map@,
            copy.function_map@ == self.function_map@,
            copy.ui_ast.is_some() == self.ui_ast.is_some(),
            copy.ui_ast.is_some() ==> copy.ui_ast.unwrap()@ == self.ui_ast.unwrap()@,
            copy.current_game_object_id == self.current_game_object_id,
            copy.world.steps_taken() == self.world.steps_taken(),
    {
        let mut game_objects: Vec<GameObject<B>> = Vec::new();
        let mut i: usize = 0;
        while i < self.game_objects.len()
            invariant
                i <= self.game_objects@.len(),
                game_objects@.len() == i,
                forall|k: int|
                    0 <= k < i ==> {
                        &&& (#[trigger] game_objects@[k]).id == self.game_objects@[k].id
                        &&& game_objects@[k].physics == self.game_objects@[k].physics
                        &&& game_objects@[k].pos_x_bits == self.game_objects@[k].pos_x_bits
                        &&& game_objects@[k].pos_y_bits == self.game_objects@[k].pos_y_bits
                        &&& game_objects@[k].behaviours@.len()
                            == self.game_objects@[k].behaviours@.len()
                        &&& game_objects@[k].pending() == self.game_objects@[k].pending()
                        &&& game_objects@[k].graphics == self.game_objects@[k].graphics
                        &&& behaviours_copied(self.game_objects@[k], game_objects@[k])
                    },
            decreases self.game_objects@.len() - i,
        {
            game_objects.push(self.game_objects[i].duplicate());
            i = i + 1;
        }
        let ui_ast = match &self.ui_ast {
            Some(ast) => Some(ast.clone()),
            None => None,
        };
        Scene {
            game_objects,
            world: self.world.duplicate(),
            ui_ast,
            function_map: self.function_map.duplicate(),
            data_map: self.data_map.duplicate(),
            current_game_object_id: self.current_game_object_id,
        }
    }
}

/// Registering an entity with a rigid body and a collider attaches the
/// collider to that body: looking up the parent of the entity's collider
/// gives the entity's body handle.
pub proof fn lemma_registered_collider_hangs_on_registered_body(
    before: ColliderSet,
    after: ColliderSet,
    physics: PhysicsData,
    id: u128,
)
    requires
        registered_collider(before, after, physics, id),
        physics.collider_handle.is_some(),
    ensures
        parent_lookup(after, physics.collider_handle.unwrap()) == Some(physics.rigid_body_handle),
        collider_tags(after)[physics.collider_handle.unwrap().parts()] == id,
{
}

/// How registering an entity changes the body set: with a body, its handle
/// is new and live and nothing else changed; without, the same bodies are
/// live as before.
pub open spec fn registered_body(
    before: RigidBodySet,
    after: RigidBodySet,
    handle: Option<RigidBodyHandle>,
) -> bool {
    match handle {
        Some(body) => {
            &&& !body_positions(before).contains_key(body.parts())
            &&& body_positions(after).dom() == body_positions(before).dom().insert(body.parts())
        },
        None => after == before,
    }
}

/// How registering an entity changes the collider set: with a collider, its
/// handle is new, its parent is the entity's body (or none, for an entity
/// without body), its user data is the entity's number, and nothing else
/// changed; without, the set is as before.
pub open spec fn registered_collider(
    before: ColliderSet,
    after: ColliderSet,
    physics: PhysicsData,
    id: u128,
) -> bool {
    match physics.collider_handle {
        Some(collider) => {
            &&& !collider_parents(before).contains_key(collider.parts())
            &&& collider_parents(after) == collider_parents(before).insert(
                collider.parts(),
                match physics.rigid_body_handle {
                    Some(body) => Some(body.parts()),
                    None => None,
                },
            )
            &&& collider_tags(after) == collider_tags(before).insert(collider.parts(), id)
        },
        None => after == before,
    }
}

} // verus!
