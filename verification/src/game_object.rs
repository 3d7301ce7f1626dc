//! Entities.

use vstd::prelude::*;
use vstd::slice::slice_to_vec;
use rapier2d::dynamics::RigidBody;
use rapier2d::geometry::Collider;
use rapier2d::pipeline::QueryPipeline;
use crate::events::EngineEvent;
use crate::game_object::behaviours::behaviour_ticked;
use crate::game_object::behaviours::game_loop_ran;
use crate::game_object::behaviours::received_event_ran;
use crate::game_object::behaviours::loaded_ran;
use crate::game_object::behaviours::unloaded_ran;
use crate::game_object::behaviours::EngineView;
use crate::game_object::behaviours::UserBehaviour;
use crate::game_object::behaviours::UserBehaviourClone;
use crate::game_object::graphics::GraphicsType;
use crate::game_object::physics::PhysicsData;
use crate::engine::load_of;
use crate::engine::unload_of;
use crate::engine::Dispatch;
use crate::events::EngineError;
use crate::latch::EdgeLatch;
use crate::physics::body_positions;
use crate::physics::collider_parents;
use crate::physics::collider_tags;
use crate::physics::PhysicsWorld;
use crate::tables::IdSet;

pub mod behaviours;
pub mod graphics;
pub mod physics;

verus! {

/// A message delivered to an entity's behaviours.
#[derive(Debug, PartialEq)]
pub enum GameObjectIPC {
    UserEvent(Vec<u8>),
}

impl View for GameObjectIPC {
    type V = Seq<u8>;

    open spec fn view(&self) -> Seq<u8> {
        match *self {
            GameObjectIPC::UserEvent(bytes) => bytes@,
        }
    }
}

impl Clone for GameObjectIPC {
    fn clone(&self) -> (copy: GameObjectIPC)
        ensures
            copy@ == self@,
    {
        match self {
            GameObjectIPC::UserEvent(bytes) => GameObjectIPC::UserEvent(bytes.clone()),
        }
    }
}

/// An entity of a scene. Its position is in physics units, each coordinate
/// an `f32` held as its bit pattern.
pub struct GameObject<B> {
    pub graphics: Option<GraphicsType>,
    pub behaviours: Vec<B>,
    pub pos_x_bits: u32,
    pub pos_y_bits: u32,
    pub physics: PhysicsData,
    pub id: u128,
    pub inbox: Vec<GameObjectIPC>,
}

/// The part of an entity that its own behaviours may change.
pub struct GameObjectView<'a> {
    pub physics: &'a mut PhysicsData,
    pub pos_x_bits: &'a mut u32,
    pub pos_y_bits: &'a mut u32,
}

/// The message that waited longest in an inbox, if one waits.
pub open spec fn oldest(inbox: Seq<GameObjectIPC>) -> Option<GameObjectIPC> {
    if inbox.len() > 0 {
        Some(inbox[0])
    } else {
        None
    }
}

/// The messages waiting in an inbox, oldest first.
pub open spec fn inbox_view(inbox: Seq<GameObjectIPC>) -> Seq<Seq<u8>> {
    Seq::new(inbox.len(), |i: int| inbox[i]@)
}

/// The behaviours of `copy` are what `clone_box` made of the behaviours of
/// `source`, place by place.
pub open spec fn behaviours_copied<B: UserBehaviourClone>(
    source: GameObject<B>,
    copy: GameObject<B>,
) -> bool {
    &&& copy.behaviours@.len() == source.behaviours@.len()
    &&& forall|k: int|
        0 <= k < source.behaviours@.len() ==> call_ensures(
            B::clone_box,
            (&source.behaviours@[k],),
            #[trigger] copy.behaviours@[k],
        )
}

impl<B> GameObject<B> {
    /// The messages not yet delivered, oldest first.
    pub open spec fn pending(&self) -> Seq<Seq<u8>> {
        inbox_view(self.inbox@)
    }

    /// Queues a message for the behaviours of this entity. They receive it
    /// at the entity's next tick.
    pub fn notify(&mut self, event: &[u8])
        ensures
            final(self).pending() == old(self).pending().push(event@),
            final(self).id == old(self).id,
            final(self).physics == old(self).physics,
            final(self).behaviours == old(self).behaviours,
            final(self).graphics == old(self).graphics,
            final(self).pos_x_bits == old(self).pos_x_bits,
            final(self).pos_y_bits == old(self).pos_y_bits,
    {
        let ev = slice_to_vec(event);
        self.notify_internal(ev);
    }

    pub(crate) fn notify_internal(&mut self, event: Vec<u8>)
        ensures
            final(self).pending() == old(self).pending().push(event@),
            final(self).id == old(self).id,
            final(self).physics == old(self).physics,
            final(self).behaviours == old(self).behaviours,
            final(self).graphics == old(self).graphics,
            final(self).pos_x_bits == old(self).pos_x_bits,
            final(self).pos_y_bits == old(self).pos_y_bits,
    {
        self.inbox.push(GameObjectIPC::UserEvent(event));
        assert(final(self).pending() =~= old(self).pending().push(event@));
    }

    pub fn add_graphics(&mut self, graphics_type: GraphicsType)
        ensures
            final(self).graphics == Some(graphics_type),
            final(self).id == old(self).id,
            final(self).pending() == old(self).pending(),
            final(self).physics == old(self).physics,
            final(self).behaviours == old(self).behaviours,
            final(self).pos_x_bits == old(self).pos_x_bits,
            final(self).pos_y_bits == old(self).pos_y_bits,
    {
        self.graphics = Some(graphics_type);
    }
}

impl<B> GameObject<B> {
    /// Tells every behaviour of the entity, in order, that its scene is no
    /// longer the active one, and enters the unload of the entity, which is
    /// number `entity` of the scene active in `activation`, in the dispatch
    /// history.
    pub(crate) fn unloading<C>(
        &mut self,
        world: &mut PhysicsWorld,
        tx: &kanal::Sender<EngineEvent<C>>,
        keys_pressed: &IdSet,
        key_locks: &mut EdgeLatch,
        query_pipeline: &mut QueryPipeline,
        frame_delta_millis: u64,
        collision_locks: &mut EdgeLatch,
        history: &mut Ghost<Seq<Dispatch>>,
        Ghost(activation): Ghost<nat>,
        Ghost(entity): Ghost<nat>,
    ) where B: UserBehaviour<C>
        ensures
            final(history)@ == old(history)@.push(unload_of(activation, entity)),
            final(self).id == old(self).id,
            final(self).behaviours@.len() == old(self).behaviours@.len(),
            final(self).graphics == old(self).graphics,
            final(self).inbox == old(self).inbox,
            forall|k: int|
                0 <= k < old(self).behaviours@.len() ==> unloaded_ran::<B, C>(
                    #[trigger] old(self).behaviours@[k],
                    keys_pressed@,
                ),
            old(self).behaviours@.len() == 0 ==> {
                &&& *final(self) == *old(self)
                &&& *final(world) == *old(world)
                &&& *final(key_locks) == *old(key_locks)
                &&& *final(collision_locks) == *old(collision_locks)
            },
    {
        let mut j: usize = 0;
        while j < self.behaviours.len()
            invariant
                *history == *old(history),
                self.id == old(self).id,
                self.behaviours@.len() == old(self).behaviours@.len(),
                self.graphics == old(self).graphics,
                self.inbox == old(self).inbox,
                j <= self.behaviours@.len(),
                forall|k: int|
                    0 <= k < j ==> unloaded_ran::<B, C>(
                        #[trigger] old(self).behaviours@[k],
                        keys_pressed@,
                    ),
                forall|k: int|
                    j <= k < self.behaviours@.len() ==> #[trigger] self.behaviours@[k] == old(
                        self,
                    ).behaviours@[k],
                j == 0 ==> {
                    &&& *self == *old(self)
                    &&& *world == *old(world)
                    &&& *key_locks == *old(key_locks)
                    &&& *collision_locks == *old(collision_locks)
                },
            decreases self.behaviours@.len() - j,
        {
            let ghost start = self.behaviours@[j as int];
            let ghost others = self.behaviours@;
            self.behaviours[j].unloaded(
                EngineView {
                    world: &mut *world,
                    query_pipeline: &mut *query_pipeline,
                    event_tx: tx,
                    key_locks: &mut *key_locks,
                    collision_locks: &mut *collision_locks,
                    keys_pressed,
                    frame_delta_millis,
                },
                GameObjectView {
                    physics: &mut self.physics,
                    pos_x_bits: &mut self.pos_x_bits,
                    pos_y_bits: &mut self.pos_y_bits,
                },
            );
            proof {
                assert(unloaded_ran::<B, C>(start, keys_pressed@));
                assert(self.behaviours@ =~= others.update(j as int, self.behaviours@[j as int]));
            }
            j = j + 1;
        }
        proof {
            *history = Ghost(history@.push(unload_of(activation, entity)));
        }
    }

    /// Tells every behaviour of the entity, in order, that its scene became
    /// the active one, and enters the load of the entity, which is number
    /// `entity` of the scene active in `activation`, in the dispatch history.
    pub(crate) fn loading<C>(
        &mut self,
        world: &mut PhysicsWorld,
        tx: &kanal::Sender<EngineEvent<C>>,
        keys_pressed: &IdSet,
        key_locks: &mut EdgeLatch,
        query_pipeline: &mut QueryPipeline,
        frame_delta_millis: u64,
        collision_locks: &mut EdgeLatch,
        history: &mut Ghost<Seq<Dispatch>>,
        Ghost(activation): Ghost<nat>,
        Ghost(entity): Ghost<nat>,
    ) where B: UserBehaviour<C>
        ensures
            final(history)@ == old(history)@.push(load_of(activation, entity)),
            final(self).id == old(self).id,
            final(self).behaviours@.len() == old(self).behaviours@.len(),
            final(self).graphics == old(self).graphics,
            final(self).inbox == old(self).inbox,
            forall|k: int|
                0 <= k < old(self).behaviours@.len() ==> loaded_ran::<B, C>(
                    #[trigger] old(self).behaviours@[k],
                    keys_pressed@,
                ),
            old(self).behaviours@.len() == 0 ==> {
                &&& *final(self) == *old(self)
                &&& *final(world) == *old(world)
                &&& *final(key_locks) == *old(key_locks)
                &&& *final(collision_locks) == *old(collision_locks)
            },
    {
        let mut j: usize = 0;
        while j < self.behaviours.len()
            invariant
                *history == *old(history),
                self.id == old(self).id,
                self.behaviours@.len() == old(self).behaviours@.len(),
                self.graphics == old(self).graphics,
                self.inbox == old(self).inbox,
                j <= self.behaviours@.len(),
                forall|k: int|
                    0 <= k < j ==> loaded_ran::<B, C>(
                        #[trigger] old(self).behaviours@[k],
                        keys_pressed@,
                    ),
                forall|k: int|
                    j <= k < self.behaviours@.len() ==> #[trigger] self.behaviours@[k] == old(
                        self,
                    ).behaviours@[k],
                j == 0 ==> {
                    &&& *self == *old(self)
                    &&& *world == *old(world)
                    &&& *key_locks == *old(key_locks)
                    &&& *collision_locks == *old(collision_locks)
                },
            decreases self.behaviours@.len() - j,
        {
            let ghost start = self.behaviours@[j as int];
            let ghost others = self.behaviours@;
            self.behaviours[j].loaded(
                EngineView {
                    world: &mut *world,
                    query_pipeline: &mut *query_pipeline,
                    event_tx: tx,
                    key_locks: &mut *key_locks,
                    collision_locks: &mut *collision_locks,
                    keys_pressed,
                    frame_delta_millis,
                },
                GameObjectView {
                    physics: &mut self.physics,
                    pos_x_bits: &mut self.pos_x_bits,
                    pos_y_bits: &mut self.pos_y_bits,
                },
            );
            proof {
                assert(loaded_ran::<B, C>(start, keys_pressed@));
                assert(self.behaviours@ =~= others.update(j as int, self.behaviours@[j as int]));
            }
            j = j + 1;
        }
        proof {
            *history = Ghost(history@.push(load_of(activation, entity)));
        }
    }

    /// One tick of the entity. The oldest waiting message, if there is one,
    /// is taken from the inbox; then every behaviour, in order, first
    /// receives that message and then runs its `game_loop`.
    pub(crate) fn execute<C>(
        &mut self,
        world: &mut PhysicsWorld,
        event_tx: &kanal::Sender<EngineEvent<C>>,
        keys_pressed: &IdSet,
        key_locks: &mut EdgeLatch,
        query_pipeline: &mut QueryPipeline,
        frame_delta_millis: u64,
        collision_locks: &mut EdgeLatch,
    ) where B: UserBehaviour<C>
        ensures
            final(self).id == old(self).id,
            final(self).behaviours@.len() == old(self).behaviours@.len(),
            final(self).graphics == old(self).graphics,
            final(self).pending() == if old(self).pending().len() > 0 {
                old(self).pending().drop_first()
            } else {
                old(self).pending()
            },
            forall|k: int|
                0 <= k < old(self).behaviours@.len() ==> behaviour_ticked::<B, C>(
                    #[trigger] old(self).behaviours@[k],
                    oldest(old(self).inbox@),
                    keys_pressed@,
                ),
            old(self).behaviours@.len() == 0 ==> {
                &&& final(self).behaviours == old(self).behaviours
                &&& final(self).physics == old(self).physics
                &&& final(self).pos_x_bits == old(self).pos_x_bits
                &&& final(self).pos_y_bits == old(self).pos_y_bits
                &&& *final(world) == *old(world)
                &&& *final(key_locks) == *old(key_locks)
                &&& *final(collision_locks) == *old(collision_locks)
            },
    {
        let object_event: Option<GameObjectIPC> = if self.inbox.len() > 0 {
            Some(self.inbox.remove(0))
        } else {
            None
        };
        proof {
            if old(self).pending().len() > 0 {
                assert(self.pending() =~= old(self).pending().drop_first());
            }
        }
        let ghost pending = self.pending();
        let mut j: usize = 0;
        while j < self.behaviours.len()
            invariant
                self.id == old(self).id,
                self.behaviours@.len() == old(self).behaviours@.len(),
                self.graphics == old(self).graphics,
                self.pending() == pending,
                j <= self.behaviours@.len(),
                object_event == oldest(old(self).inbox@),
                j == 0 ==> {
                    &&& self.behaviours == old(self).behaviours
                    &&& self.physics == old(self).physics
                    &&& self.pos_x_bits == old(self).pos_x_bits
                    &&& self.pos_y_bits == old(self).pos_y_bits
                    &&& *world == *old(world)
                    &&& *key_locks == *old(key_locks)
                    &&& *collision_locks == *old(collision_locks)
                },
                forall|k: int|
                    0 <= k < j ==> behaviour_ticked::<B, C>(
                        #[trigger] old(self).behaviours@[k],
                        object_event,
                        keys_pressed@,
                    ),
                forall|k: int|
                    j <= k < self.behaviours@.len() ==> #[trigger] self.behaviours@[k] == old(
                        self,
                    ).behaviours@[k],
            decreases self.behaviours@.len() - j,
        {
            let ghost start = self.behaviours@[j as int];
            let ghost others = self.behaviours@;
            match &object_event {
                Some(event) => {
                    self.behaviours[j].received_event(
                        event,
                        EngineView {
                            world: &mut *world,
                            query_pipeline: &mut *query_pipeline,
                            event_tx,
                            key_locks: &mut *key_locks,
                            collision_locks: &mut *collision_locks,
                            keys_pressed,
                            frame_delta_millis,
                        },
                        GameObjectView {
                            physics: &mut self.physics,
                            pos_x_bits: &mut self.pos_x_bits,
                            pos_y_bits: &mut self.pos_y_bits,
                        },
                    );
                    assert(received_event_ran::<B, C>(start, *event, keys_pressed@));
                },
                None => {},
            }
            let ghost between = self.behaviours@[j as int];
            self.behaviours[j].game_loop(
                GameObjectView {
                    physics: &mut self.physics,
                    pos_x_bits: &mut self.pos_x_bits,
                    pos_y_bits: &mut self.pos_y_bits,
                },
                EngineView {
                    world: &mut *world,
                    query_pipeline: &mut *query_pipeline,
                    event_tx,
                    key_locks: &mut *key_locks,
                    collision_locks: &mut *collision_locks,
                    keys_pressed,
                    frame_delta_millis,
                },
            );
            proof {
                assert(game_loop_ran::<B, C>(between, keys_pressed@));
                assert(self.behaviours@ =~= others.update(j as int, self.behaviours@[j as int]));
                assert(behaviour_ticked::<B, C>(
                    old(self).behaviours@[j as int],
                    object_event,
                    keys_pressed@,
                ));
            }
            j = j + 1;
        }
    }

    /// Takes the collider of the entity out of the world; the entity has no
    /// collider afterwards. An entity without collider, or with one that is
    /// not live, is an error.
    pub fn remove_collider(&mut self, world: &mut PhysicsWorld) -> (outcome: Result<
        (),
        EngineError,
    >)
        ensures
            *final(self) == (GameObject {
                physics: PhysicsData {
                    collider_handle: None,
                    rigid_body_handle: old(self).physics.rigid_body_handle,
                },
                ..*old(self)
            }),
            body_positions(final(world).bodies()) == body_positions(old(world).bodies()),
            final(world).pairs() == old(world).pairs(),
            final(world).steps_taken() == old(world).steps_taken(),
            match old(self).physics.collider_handle {
                Some(handle) => {
                    &&& outcome == if collider_parents(old(world).colliders()).contains_key(
                        handle.parts(),
                    ) {
                        Ok::<(), EngineError>(())
                    } else {
                        Err::<(), EngineError>(EngineError::MissingHandle)
                    }
                    &&& collider_parents(final(world).colliders()) == collider_parents(
                        old(world).colliders(),
                    ).remove(handle.parts())
                    &&& collider_tags(final(world).colliders()) == collider_tags(
                        old(world).colliders(),
                    ).remove(handle.parts())
                },
                None => {
                    &&& outcome == Err::<(), EngineError>(EngineError::MissingHandle)
                    &&& *final(world) == *old(world)
                },
            },
    {
        match self.physics.collider_handle {
            Some(handle) => {
                let removed = world.remove_collider(handle);
                self.physics.collider_handle = None;
                if removed {
                    Ok(())
                } else {
                    Err(EngineError::MissingHandle)
                }
            },
            None => Err(EngineError::MissingHandle),
        }
    }

    /// Takes the rigid body of the entity out of the world. The collider of
    /// the entity, if it has one, is taken out first, so that no collider is
    /// ever left hanging on a body that is gone. The entity has neither body
    /// nor collider afterwards. An entity without body, or with one that is
    /// not live, is an error.
    pub fn remove_rigid_body(&mut self, world: &mut PhysicsWorld) -> (outcome: Result<
        (),
        EngineError,
    >)
        ensures
            *final(self) == (GameObject {
                physics: PhysicsData { collider_handle: None, rigid_body_handle: None },
                ..*old(self)
            }),
            outcome == match old(self).physics.rigid_body_handle {
                Some(body) => if body_positions(old(world).bodies()).contains_key(body.parts()) {
                    Ok::<(), EngineError>(())
                } else {
                    Err::<(), EngineError>(EngineError::MissingHandle)
                },
                None => Err::<(), EngineError>(EngineError::MissingHandle),
            },
            match old(self).physics.rigid_body_handle {
                Some(body) => body_positions(final(world).bodies()) == body_positions(
                    old(world).bodies(),
                ).remove(body.parts()),
                None => body_positions(final(world).bodies()) == body_positions(
                    old(world).bodies(),
                ),
            },
            collider_parents(final(world).colliders()).submap_of(
                collider_parents(old(world).colliders()),
            ),
            old(self).physics.collider_handle matches Some(collider) ==> !collider_parents(
                final(world).colliders(),
            ).contains_key(collider.parts()),
            final(world).pairs() == old(world).pairs(),
            final(world).steps_taken() == old(world).steps_taken(),
    {
        let collider = self.physics.collider_handle;
        match collider {
            Some(handle) => {
                world.remove_collider(handle);
            },
            None => {},
        }
        self.physics.collider_handle = None;
        let body = self.physics.rigid_body_handle;
        self.physics.rigid_body_handle = None;
        match body {
            Some(handle) => {
                let ghost detached = collider_parents(world.colliders());
                let removed = world.remove_body(handle);
                proof {
                    let before = collider_parents(old(world).colliders());
                    let after = collider_parents(world.colliders());
                    assert forall|c: (u32, u32)| #[trigger] after.dom().contains(c) implies {
                        &&& before.dom().contains(c)
                        &&& after[c] == before[c]
                    } by {
                        assert(detached.dom().contains(c));
                    }
                    if collider.is_some() && after.contains_key(collider.unwrap().parts()) {
                        assert(detached.dom().contains(collider.unwrap().parts()));
                    }
                }
                if removed {
                    Ok(())
                } else {
                    Err(EngineError::MissingHandle)
                }
            },
            None => Err(EngineError::MissingHandle),
        }
    }

    /// The translation of the rigid body of the entity, as the bit patterns
    /// of its coordinates. An entity without body, or with one that is not
    /// live, is an error.
    pub fn get_updated_physics_position(&self, world: &PhysicsWorld) -> (position: Result<
        (u32, u32),
        EngineError,
    >)
        ensures
            position == match self.physics.rigid_body_handle {
                Some(handle) => if body_positions(world.bodies()).contains_key(handle.parts()) {
                    Ok::<(u32, u32), EngineError>(body_positions(world.bodies())[handle.parts()])
                } else {
                    Err::<(u32, u32), EngineError>(EngineError::MissingHandle)
                },
                None => Err::<(u32, u32), EngineError>(EngineError::MissingHandle),
            },
    {
        match self.physics.rigid_body_handle {
            Some(handle) => match world.translation_of(handle) {
                Some(bits) => Ok(bits),
                None => Err(EngineError::MissingHandle),
            },
            None => Err(EngineError::MissingHandle),
        }
    }

    /// A copy of the entity. Each behaviour of the copy is what `clone_box`
    /// made of the behaviour at its place.
    pub fn duplicate(&self) -> (copy: GameObject<B>) where B: UserBehaviourClone
        ensures
            copy.id == self.id,
            copy.physics == self.physics,
            copy.pos_x_bits == self.pos_x_bits,
            copy.pos_y_bits == self.pos_y_bits,
            copy.behaviours@.len() == self.behaviours@.len(),
            copy.graphics == self.graphics,
            copy.pending() == self.pending(),
            behaviours_copied(*self, copy),
    {
        let mut behaviours: Vec<B> = Vec::new();
        let mut j: usize = 0;
        while j < self.behaviours.len()
            invariant
                j <= self.behaviours@.len(),
                behaviours@.len() == j,
                forall|k: int|
                    0 <= k < j ==> call_ensures(
                        B::clone_box,
                        (&self.behaviours@[k],),
                        #[trigger] behaviours@[k],
                    ),
            decreases self.behaviours@.len() - j,
        {
            behaviours.push(self.behaviours[j].clone_box());
            j = j + 1;
        }
        let mut inbox: Vec<GameObjectIPC> = Vec::new();
        let mut k: usize = 0;
        while k < self.inbox.len()
            invariant
                k <= self.inbox@.len(),
                inbox@.len() == k,
                forall|i: int| 0 <= i < k ==> (#[trigger] inbox@[i])@ == self.inbox@[i]@,
            decreases self.inbox@.len() - k,
        {
            inbox.push(self.inbox[k].clone());
            k = k + 1;
        }
        assert(inbox_view(inbox@) =~= inbox_view(self.inbox@));
        let graphics: Option<GraphicsType> = match &self.graphics {
            Some(graphics) => Some(graphics.clone()),
            None => None,
        };
        GameObject {
            graphics,
            behaviours,
            pos_x_bits: self.pos_x_bits,
            pos_y_bits: self.pos_y_bits,
            physics: self.physics,
            id: self.id,
            inbox,
        }
    }
}

/// What an entity is made from.
pub struct GameObjectBuilder<B> {
    pub graphics: Option<GraphicsType>,
    pub behaviours: Vec<B>,
    pub pos_x_bits: u32,
    pub pos_y_bits: u32,
    pub collider: Option<Collider>,
    pub rigid_body: Option<RigidBody>,
}

impl<B> GameObjectBuilder<B> {
    /// An entity at the origin with nothing attached.
    pub fn new() -> (builder: GameObjectBuilder<B>)
        ensures
            builder.graphics.is_none(),
            builder.behaviours@.len() == 0,
            builder.pos_x_bits == 0,
            builder.pos_y_bits == 0,
            builder.collider.is_none(),
            builder.rigid_body.is_none(),
    {
        GameObjectBuilder {
            graphics: None,
            behaviours: Vec::new(),
            pos_y_bits: 0,
            pos_x_bits: 0,
            collider: None,
            rigid_body: None,
        }
    }

    pub fn graphics(self, graphics: GraphicsType) -> (builder: GameObjectBuilder<B>)
        ensures
            builder == (GameObjectBuilder { graphics: Some(graphics), ..self }),
    {
        let mut builder = self;
        builder.graphics = Some(graphics);
        builder
    }

    pub fn position(self, pos_x_bits: u32, pos_y_bits: u32) -> (builder: GameObjectBuilder<B>)
        ensures
            builder == (GameObjectBuilder { pos_x_bits, pos_y_bits, ..self }),
    {
        let mut builder = self;
        builder.pos_x_bits = pos_x_bits;
        builder.pos_y_bits = pos_y_bits;
        builder
    }

    pub fn rigid_body(self, rigid_body: RigidBody) -> (builder: GameObjectBuilder<B>)
        ensures
            builder == (GameObjectBuilder { rigid_body: Some(rigid_body), ..self }),
    {
        let mut builder = self;
        builder.rigid_body = Some(rigid_body);
        builder
    }

    /// Appends a behaviour; behaviours run in the order they were added.
    pub fn behaviour(self, behaviour: B) -> (builder: GameObjectBuilder<B>)
        ensures
            builder == (GameObjectBuilder {
                behaviours: builder.behaviours,
                ..self
            }),
            builder.behaviours@ == self.behaviours@.push(behaviour),
    {
        let mut builder = self;
        builder.behaviours.push(behaviour);
        builder
    }

    pub fn collider(self, collider: Collider) -> (builder: GameObjectBuilder<B>)
        ensures
            builder == (GameObjectBuilder { collider: Some(collider), ..self }),
    {
        let mut builder = self;
        builder.collider = Some(collider);
        builder
    }
}

} // verus!
