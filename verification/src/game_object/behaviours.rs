//! Behaviours, and the views of the engine they are run with.
//!
//! A behaviour never gets hold of the entity list or of the engine. Each
//! call hands it two short-lived views: one of the entity it belongs to, and
//! one of what it may use of the scene and the engine. Anything else it
//! asks for by sending an event.

use vstd::prelude::*;
use rapier2d::pipeline::QueryPipeline;
use crate::audio::basic::AudioSource;
use crate::events::send_outcome;
use crate::events::EngineError;
use crate::events::EngineEvent;
use crate::events::PullGameObjectRequest;
use crate::game_object::GameObjectIPC;
use crate::game_object::GameObjectView;
use crate::latch::latch_step;
use crate::latch::EdgeLatch;
use crate::physics::body_positions;
use crate::physics::collider_parents;
use crate::physics::collider_tags;
use crate::physics::finite_bits;
use crate::physics::parent_lookup;
use crate::physics::placed;
use crate::physics::ColliderHandle;
use crate::physics::PhysicsWorld;
use crate::physics::RigidBodyHandle;
use crate::tables::IdSet;

verus! {

/// Code attached to an entity. `game_loop` runs once per frame; the other
/// hooks do nothing unless overridden.
pub trait UserBehaviour<C>: UserBehaviourClone {
    fn game_loop(&mut self, game_object_view: GameObjectView, engine_view: EngineView<C>);

    fn unloaded(&mut self, _engine_view: EngineView<C>, _game_object_view: GameObjectView) {
    }

    fn loaded(&mut self, _engine_view: EngineView<C>, _game_object_view: GameObjectView) {
    }

    fn received_event(
        &mut self,
        _event: &GameObjectIPC,
        _engine_view: EngineView<C>,
        _game_object_view: GameObjectView,
    ) {
    }
}

/// Behaviours are copied with the scene they live in.
pub trait UserBehaviourClone: Sized {
    fn clone_box(&self) -> Self;
}

/// `game_loop` was called on a behaviour that was `before`, with a view
/// that showed `keys` as the keys held.
pub open spec fn game_loop_ran<B: UserBehaviour<C>, C>(before: B, keys: Set<u64>) -> bool {
    exists|behaviour: &mut B, object: GameObjectView, view: EngineView<C>|
        *behaviour == before && view.held_keys() == keys && #[trigger] call_ensures(
            B::game_loop,
            (behaviour, object, view),
            (),
        )
}

/// `received_event` was called with `message` on a behaviour that was
/// `before`, with a view that showed `keys` as the keys held.
pub open spec fn received_event_ran<B: UserBehaviour<C>, C>(
    before: B,
    message: GameObjectIPC,
    keys: Set<u64>,
) -> bool {
    exists|behaviour: &mut B, view: EngineView<C>, object: GameObjectView|
        *behaviour == before && view.held_keys() == keys && #[trigger] call_ensures(
            B::received_event,
            (behaviour, &message, view, object),
            (),
        )
}

/// `loaded` was called on a behaviour that was `before`, with a view that
/// showed `keys` as the keys held.
pub open spec fn loaded_ran<B: UserBehaviour<C>, C>(before: B, keys: Set<u64>) -> bool {
    exists|behaviour: &mut B, view: EngineView<C>, object: GameObjectView|
        *behaviour == before && view.held_keys() == keys && #[trigger] call_ensures(
            B::loaded,
            (behaviour, view, object),
            (),
        )
}

/// `unloaded` was called on a behaviour that was `before`, with a view that
/// showed `keys` as the keys held.
pub open spec fn unloaded_ran<B: UserBehaviour<C>, C>(before: B, keys: Set<u64>) -> bool {
    exists|behaviour: &mut B, view: EngineView<C>, object: GameObjectView|
        *behaviour == before && view.held_keys() == keys && #[trigger] call_ensures(
            B::unloaded,
            (behaviour, view, object),
            (),
        )
}

/// One tick of a behaviour that was `before`. With a message waiting, the
/// behaviour received the message, and `game_loop` was then called on what
/// that left of it; without one, `game_loop` was called on it as it was.
/// Each call came with a view that showed `keys` as the keys held.
pub open spec fn behaviour_ticked<B: UserBehaviour<C>, C>(
    before: B,
    message: Option<GameObjectIPC>,
    keys: Set<u64>,
) -> bool {
    match message {
        Some(event) => {
            &&& received_event_ran::<B, C>(before, event, keys)
            &&& exists|between: B| #[trigger] game_loop_ran::<B, C>(between, keys)
        },
        None => game_loop_ran::<B, C>(before, keys),
    }
}

/// What a behaviour may use of the scene and the engine during one call.
#[verifier::reject_recursive_types(C)]
pub struct EngineView<'a, C> {
    pub(crate) world: &'a mut PhysicsWorld,
    pub query_pipeline: &'a mut QueryPipeline,
    pub(crate) event_tx: &'a kanal::Sender<EngineEvent<C>>,
    pub(crate) key_locks: &'a mut EdgeLatch,
    pub(crate) collision_locks: &'a mut EdgeLatch,
    pub(crate) keys_pressed: &'a IdSet,
    pub frame_delta_millis: u64,
}

impl<'a, C> EngineView<'a, C> {
    /// Codes of the keys that are held.
    pub open(crate) spec fn held_keys(&self) -> Set<u64> {
        self.keys_pressed@
    }

    /// Codes of the held keys that were already reported as pressed.
    pub open(crate) spec fn key_locks(&self) -> Set<u64> {
        self.key_locks@
    }

    /// Keys of the colliders latched as colliding.
    pub open(crate) spec fn collision_locks(&self) -> Set<u64> {
        self.collision_locks@
    }

    /// The physics world of the scene.
    pub open(crate) spec fn physics(&self) -> PhysicsWorld {
        *self.world
    }

    /// The physics world of the scene, to read.
    pub fn world(&self) -> (world: &PhysicsWorld)
        ensures
            *world == self.physics(),
    {
        &*self.world
    }

    /// `col2` while the two colliders intersect, sensors included.
    pub fn is_colliding_with_sensor(&self, col1: ColliderHandle, col2: ColliderHandle) -> (hit:
        Option<ColliderHandle>)
        ensures
            hit == if self.physics().overlapping(col1, col2) {
                Some(col2)
            } else {
                None
            },
    {
        if self.world.is_overlapping(col1, col2) {
            Some(col2)
        } else {
            None
        }
    }

    /// `col2` on the first call that finds the two colliders intersecting,
    /// nothing while they keep intersecting; the latch of `col2` is released
    /// by a call that finds them apart.
    pub fn is_colliding_with_sensor_once(&mut self, col1: ColliderHandle, col2: ColliderHandle) -> (hit:
        Option<ColliderHandle>)
        ensures
            final(self).collision_locks() == latch_step(
                old(self).collision_locks(),
                col2.spec_key(),
                old(self).physics().overlapping(col1, col2),
            ).0,
            hit == if latch_step(
                old(self).collision_locks(),
                col2.spec_key(),
                old(self).physics().overlapping(col1, col2),
            ).1 {
                Some(col2)
            } else {
                None
            },
            final(self).key_locks() == old(self).key_locks(),
            final(self).held_keys() == old(self).held_keys(),
            final(self).physics() == old(self).physics(),
    {
        let level = self.world.is_overlapping(col1, col2);
        if self.collision_locks.rising_edge(col2.key(), level) {
            Some(col2)
        } else {
            None
        }
    }

    /// `col2` while the two colliders have an active contact.
    pub fn is_colliding(&self, col1: ColliderHandle, col2: ColliderHandle) -> (hit: Option<
        ColliderHandle,
    >)
        ensures
            hit == if self.physics().touching(col1, col2) {
                Some(col2)
            } else {
                None
            },
    {
        if self.world.is_touching(col1, col2) {
            Some(col2)
        } else {
            None
        }
    }

    /// `col2` on the first call that finds the two colliders in contact,
    /// nothing while the contact lasts; the latch of `col2` is released by a
    /// call that finds them apart.
    pub fn is_colliding_once(&mut self, col1: ColliderHandle, col2: ColliderHandle) -> (hit: Option<
        ColliderHandle,
    >)
        ensures
            final(self).collision_locks() == latch_step(
                old(self).collision_locks(),
                col2.spec_key(),
                old(self).physics().touching(col1, col2),
            ).0,
            hit == if latch_step(
                old(self).collision_locks(),
                col2.spec_key(),
                old(self).physics().touching(col1, col2),
            ).1 {
                Some(col2)
            } else {
                None
            },
            final(self).key_locks() == old(self).key_locks(),
            final(self).held_keys() == old(self).held_keys(),
            final(self).physics() == old(self).physics(),
    {
        let level = self.world.is_touching(col1, col2);
        if self.collision_locks.rising_edge(col2.key(), level) {
            Some(col2)
        } else {
            None
        }
    }

    pub fn is_key_down(&self, key: u32) -> (down: bool)
        ensures
            down == self.held_keys().contains(key as u64),
    {
        self.keys_pressed.contains(key as u64)
    }

    pub fn is_key_up(&self, key: u32) -> (up: bool)
        ensures
            up == !self.held_keys().contains(key as u64),
    {
        !self.keys_pressed.contains(key as u64)
    }

    /// Whether the key went down since this question was last asked of it.
    pub fn is_key_pressed(&mut self, key: u32) -> (pressed: bool)
        ensures
            (final(self).key_locks(), pressed) == latch_step(
                old(self).key_locks(),
                key as u64,
                old(self).held_keys().contains(key as u64),
            ),
            final(self).held_keys() == old(self).held_keys(),
            final(self).collision_locks() == old(self).collision_locks(),
            final(self).physics() == old(self).physics(),
    {
        let down = self.keys_pressed.contains(key as u64);
        self.key_locks.rising_edge(key as u64, down)
    }

    /// The rigid body a collider hangs on. A handle that is not live is an
    /// error.
    pub fn parent_of(&self, collider: ColliderHandle) -> (parent: Result<
        Option<RigidBodyHandle>,
        EngineError,
    >)
        ensures
            parent == match parent_lookup(self.physics().colliders(), collider) {
                Some(found) => Ok::<Option<RigidBodyHandle>, EngineError>(found),
                None => Err::<Option<RigidBodyHandle>, EngineError>(EngineError::MissingHandle),
            },
    {
        match self.world.parent_of(collider) {
            Some(parent) => Ok(parent),
            None => Err(EngineError::MissingHandle),
        }
    }

    /// The translation of a rigid body, as the bit patterns of its
    /// coordinates. A handle that is not live is an error.
    pub fn translation_of(&self, body: RigidBodyHandle) -> (bits: Result<(u32, u32), EngineError>)
        ensures
            bits == if body_positions(self.physics().bodies()).contains_key(body.parts()) {
                Ok::<(u32, u32), EngineError>(body_positions(self.physics().bodies())[body.parts()])
            } else {
                Err::<(u32, u32), EngineError>(EngineError::MissingHandle)
            },
    {
        match self.world.translation_of(body) {
            Some(bits) => Ok(bits),
            None => Err(EngineError::MissingHandle),
        }
    }

    /// Moves a rigid body to the given coordinates, each an `f32` as its bit
    /// pattern. A coordinate that is not finite, or a handle that is not
    /// live, is an error and moves nothing. Only this body moves, and it is
    /// then `placed` at the coordinates.
    pub fn set_translation(&mut self, body: RigidBodyHandle, x_bits: u32, y_bits: u32) -> (outcome:
        Result<(), EngineError>)
        ensures
            outcome == if !finite_bits(x_bits) || !finite_bits(y_bits) {
                Err::<(), EngineError>(EngineError::NotFinite)
            } else if !body_positions(old(self).physics().bodies()).contains_key(body.parts()) {
                Err::<(), EngineError>(EngineError::MissingHandle)
            } else {
                Ok::<(), EngineError>(())
            },
            body_positions(final(self).physics().bodies()).dom() == body_positions(
                old(self).physics().bodies(),
            ).dom(),
            body_positions(final(self).physics().bodies()).remove(body.parts()) == body_positions(
                old(self).physics().bodies(),
            ).remove(body.parts()),
            outcome.is_err() ==> body_positions(final(self).physics().bodies()) == body_positions(
                old(self).physics().bodies(),
            ),
            outcome.is_ok() ==> placed(
                body_positions(old(self).physics().bodies())[body.parts()],
                body_positions(final(self).physics().bodies())[body.parts()],
                x_bits,
                y_bits,
            ),
            final(self).physics().colliders() == old(self).physics().colliders(),
            final(self).physics().pairs() == old(self).physics().pairs(),
            final(self).physics().steps_taken() == old(self).physics().steps_taken(),
            final(self).key_locks() == old(self).key_locks(),
            final(self).collision_locks() == old(self).collision_locks(),
            final(self).held_keys() == old(self).held_keys(),
    {
        if x_bits & 0x7f80_0000 == 0x7f80_0000 || y_bits & 0x7f80_0000 == 0x7f80_0000 {
            return Err(EngineError::NotFinite);
        }
        if self.world.set_translation(body, x_bits, y_bits) {
            Ok(())
        } else {
            Err(EngineError::MissingHandle)
        }
    }

    /// Moves a rigid body to the given coordinates and turns it to the given
    /// angle, in radians, each an `f32` as its bit pattern. A value that is
    /// not finite, or a handle that is not live, is an error and moves
    /// nothing. Only this body moves, and it is then `placed` at the
    /// coordinates.
    pub fn set_position(
        &mut self,
        body: RigidBodyHandle,
        x_bits: u32,
        y_bits: u32,
        angle_bits: u32,
    ) -> (outcome: Result<(), EngineError>)
        ensures
            outcome == if !finite_bits(x_bits) || !finite_bits(y_bits) || !finite_bits(
                angle_bits,
            ) {
                Err::<(), EngineError>(EngineError::NotFinite)
            } else if !body_positions(old(self).physics().bodies()).contains_key(body.parts()) {
                Err::<(), EngineError>(EngineError::MissingHandle)
            } else {
                Ok::<(), EngineError>(())
            },
            body_positions(final(self).physics().bodies()).dom() == body_positions(
                old(self).physics().bodies(),
            ).dom(),
            body_positions(final(self).physics().bodies()).remove(body.parts()) == body_positions(
                old(self).physics().bodies(),
            ).remove(body.parts()),
            outcome.is_err() ==> body_positions(final(self).physics().bodies()) == body_positions(
                old(self).physics().bodies(),
            ),
            outcome.is_ok() ==> placed(
                body_positions(old(self).physics().bodies())[body.parts()],
                body_positions(final(self).physics().bodies())[body.parts()],
                x_bits,
                y_bits,
            ),
            final(self).physics().colliders() == old(self).physics().colliders(),
            final(self).physics().pairs() == old(self).physics().pairs(),
            final(self).physics().steps_taken() == old(self).physics().steps_taken(),
            final(self).key_locks() == old(self).key_locks(),
            final(self).collision_locks() == old(self).collision_locks(),
            final(self).held_keys() == old(self).held_keys(),
    {
        if x_bits & 0x7f80_0000 == 0x7f80_0000 || y_bits & 0x7f80_0000 == 0x7f80_0000 || angle_bits
            & 0x7f80_0000 == 0x7f80_0000 {
            return Err(EngineError::NotFinite);
        }
        if self.world.set_position(body, x_bits, y_bits, angle_bits) {
            Ok(())
        } else {
            Err(EngineError::MissingHandle)
        }
    }

    /// Takes the constant forces that were added to a rigid body away. A
    /// handle that is not live is an error. No body moves before the next
    /// physics step.
    pub fn reset_forces(&mut self, body: RigidBodyHandle) -> (outcome: Result<(), EngineError>)
        ensures
            outcome == if body_positions(old(self).physics().bodies()).contains_key(body.parts()) {
                Ok::<(), EngineError>(())
            } else {
                Err::<(), EngineError>(EngineError::MissingHandle)
            },
            body_positions(final(self).physics().bodies()) == body_positions(
                old(self).physics().bodies(),
            ),
            final(self).physics().colliders() == old(self).physics().colliders(),
            final(self).physics().pairs() == old(self).physics().pairs(),
            final(self).physics().steps_taken() == old(self).physics().steps_taken(),
            final(self).key_locks() == old(self).key_locks(),
            final(self).collision_locks() == old(self).collision_locks(),
            final(self).held_keys() == old(self).held_keys(),
    {
        if self.world.reset_forces(body) {
            Ok(())
        } else {
            Err(EngineError::MissingHandle)
        }
    }

    /// Gives a rigid body a linear velocity, each component an `f32` as its
    /// bit pattern. A component that is not finite, or a handle that is not
    /// live, is an error. No body moves before the next physics step.
    pub fn set_linvel(&mut self, body: RigidBodyHandle, x_bits: u32, y_bits: u32) -> (outcome:
        Result<(), EngineError>)
        ensures
            outcome == if !finite_bits(x_bits) || !finite_bits(y_bits) {
                Err::<(), EngineError>(EngineError::NotFinite)
            } else if !body_positions(old(self).physics().bodies()).contains_key(body.parts()) {
                Err::<(), EngineError>(EngineError::MissingHandle)
            } else {
                Ok::<(), EngineError>(())
            },
            body_positions(final(self).physics().bodies()) == body_positions(
                old(self).physics().bodies(),
            ),
            final(self).physics().colliders() == old(self).physics().colliders(),
            final(self).physics().pairs() == old(self).physics().pairs(),
            final(self).physics().steps_taken() == old(self).physics().steps_taken(),
            final(self).key_locks() == old(self).key_locks(),
            final(self).collision_locks() == old(self).collision_locks(),
            final(self).held_keys() == old(self).held_keys(),
    {
        if x_bits & 0x7f80_0000 == 0x7f80_0000 || y_bits & 0x7f80_0000 == 0x7f80_0000 {
            return Err(EngineError::NotFinite);
        }
        if self.world.set_linvel(body, x_bits, y_bits) {
            Ok(())
        } else {
            Err(EngineError::MissingHandle)
        }
    }

    /// Applies an impulse at the centre of mass of a rigid body, each
    /// component an `f32` as its bit pattern. A component that is not
    /// finite, or a handle that is not live, is an error. No body moves
    /// before the next physics step.
    pub fn apply_impulse(&mut self, body: RigidBodyHandle, x_bits: u32, y_bits: u32) -> (outcome:
        Result<(), EngineError>)
        ensures
            outcome == if !finite_bits(x_bits) || !finite_bits(y_bits) {
                Err::<(), EngineError>(EngineError::NotFinite)
            } else if !body_positions(old(self).physics().bodies()).contains_key(body.parts()) {
                Err::<(), EngineError>(EngineError::MissingHandle)
            } else {
                Ok::<(), EngineError>(())
            },
            body_positions(final(self).physics().bodies()) == body_positions(
                old(self).physics().bodies(),
            ),
            final(self).physics().colliders() == old(self).physics().colliders(),
            final(self).physics().pairs() == old(self).physics().pairs(),
            final(self).physics().steps_taken() == old(self).physics().steps_taken(),
            final(self).key_locks() == old(self).key_locks(),
            final(self).collision_locks() == old(self).collision_locks(),
            final(self).held_keys() == old(self).held_keys(),
    {
        if x_bits & 0x7f80_0000 == 0x7f80_0000 || y_bits & 0x7f80_0000 == 0x7f80_0000 {
            return Err(EngineError::NotFinite);
        }
        if self.world.apply_impulse(body, x_bits, y_bits) {
            Ok(())
        } else {
            Err(EngineError::MissingHandle)
        }
    }

    /// Takes a rigid body out of the world, with the colliders that hang on
    /// it. A handle that is not live is an error.
    pub fn remove_body(&mut self, body: RigidBodyHandle) -> (outcome: Result<(), EngineError>)
        ensures
            outcome == if body_positions(old(self).physics().bodies()).contains_key(body.parts()) {
                Ok::<(), EngineError>(())
            } else {
                Err::<(), EngineError>(EngineError::MissingHandle)
            },
            body_positions(final(self).physics().bodies()) == body_positions(
                old(self).physics().bodies(),
            ).remove(body.parts()),
            collider_parents(final(self).physics().colliders()).submap_of(
                collider_parents(old(self).physics().colliders()),
            ),
            collider_tags(final(self).physics().colliders()).submap_of(
                collider_tags(old(self).physics().colliders()),
            ),
            final(self).physics().pairs() == old(self).physics().pairs(),
            final(self).key_locks() == old(self).key_locks(),
            final(self).collision_locks() == old(self).collision_locks(),
            final(self).held_keys() == old(self).held_keys(),
    {
        if self.world.remove_body(body) {
            Ok(())
        } else {
            Err(EngineError::MissingHandle)
        }
    }

    /// Takes a collider out of the world. A handle that is not live is an
    /// error.
    pub fn remove_collider(&mut self, collider: ColliderHandle) -> (outcome: Result<
        (),
        EngineError,
    >)
        ensures
            outcome == if collider_parents(old(self).physics().colliders()).contains_key(
                collider.parts(),
            ) {
                Ok::<(), EngineError>(())
            } else {
                Err::<(), EngineError>(EngineError::MissingHandle)
            },
            collider_parents(final(self).physics().colliders()) == collider_parents(
                old(self).physics().colliders(),
            ).remove(collider.parts()),
            collider_tags(final(self).physics().colliders()) == collider_tags(
                old(self).physics().colliders(),
            ).remove(collider.parts()),
            body_positions(final(self).physics().bodies()) == body_positions(
                old(self).physics().bodies(),
            ),
            final(self).physics().pairs() == old(self).physics().pairs(),
            final(self).key_locks() == old(self).key_locks(),
            final(self).collision_locks() == old(self).collision_locks(),
            final(self).held_keys() == old(self).held_keys(),
    {
        if self.world.remove_collider(collider) {
            Ok(())
        } else {
            Err(EngineError::MissingHandle)
        }
    }

    /// Hands an event to the queue without waiting. `Ok(None)`: the event is
    /// queued. `Ok(Some(event))`: the queue is full, and the event comes back
    /// to be sent again in a later frame. `Err(ChannelClosed)`: the engine
    /// has shut down.
    pub fn send(&self, event: EngineEvent<C>) -> (outcome: Result<
        Option<EngineEvent<C>>,
        EngineError,
    >)
        ensures
            outcome matches Ok(Some(returned)) ==> returned == event,
            outcome matches Err(e) ==> e == EngineError::ChannelClosed,
    {
        let mut slot = Some(event);
        let sent = self.event_tx.try_send_option(&mut slot);
        send_outcome(sent, slot)
    }

    /// Asks the engine to hand `event` to every entity of the scene.
    pub fn notify_global(&self, event: Vec<u8>) -> (outcome: Result<
        Option<EngineEvent<C>>,
        EngineError,
    >)
        ensures
            outcome matches Ok(Some(returned)) ==> returned == EngineEvent::<C>::UserEvent(event),
            outcome matches Err(e) ==> e == EngineError::ChannelClosed,
    {
        self.send(EngineEvent::UserEvent(event))
    }

    /// Asks the engine to run `callback` on the entity that owns the
    /// collider.
    pub fn pull_game_object_from_collider(&self, collider_handle: ColliderHandle, callback: C) -> (outcome:
        Result<Option<EngineEvent<C>>, EngineError>)
        ensures
            outcome matches Ok(Some(returned)) ==> returned == EngineEvent::<C>::PullGameObject(
                (PullGameObjectRequest { collider_handle, callback }),
            ),
            outcome matches Err(e) ==> e == EngineError::ChannelClosed,
    {
        self.send(EngineEvent::PullGameObject(PullGameObjectRequest::new(collider_handle, callback)))
    }

    /// Asks the engine to make another scene the active one.
    pub fn load_scene(&self, scene_name: String) -> (outcome: Result<
        Option<EngineEvent<C>>,
        EngineError,
    >)
        ensures
            outcome matches Ok(Some(returned)) ==> returned == EngineEvent::<C>::SwitchToScene(
                scene_name,
            ),
            outcome matches Err(e) ==> e == EngineError::ChannelClosed,
    {
        self.send(EngineEvent::SwitchToScene(scene_name))
    }

    /// Asks the engine to store `val` under `var` in the data map.
    pub fn insert_into_datamap(&self, var: String, val: String) -> (outcome: Result<
        Option<EngineEvent<C>>,
        EngineError,
    >)
        ensures
            outcome matches Ok(Some(returned)) ==> returned == EngineEvent::<C>::InsertDatamapValue(
                (var, val),
            ),
            outcome matches Err(e) ==> e == EngineError::ChannelClosed,
    {
        self.send(EngineEvent::InsertDatamapValue((var, val)))
    }

    /// Asks the engine to replace the value under `var` in the data map.
    pub fn set_datamap_value(&self, var: String, val: String) -> (outcome: Result<
        Option<EngineEvent<C>>,
        EngineError,
    >)
        ensures
            outcome matches Ok(Some(returned)) ==> returned == EngineEvent::<C>::SetDatamapValue(
                (var, val),
            ),
            outcome matches Err(e) ==> e == EngineError::ChannelClosed,
    {
        self.send(EngineEvent::SetDatamapValue((var, val)))
    }

    /// Asks the engine to drop `var` from the data map.
    pub fn remove_datamap_value(&self, var: String) -> (outcome: Result<
        Option<EngineEvent<C>>,
        EngineError,
    >)
        ensures
            outcome matches Ok(Some(returned)) ==> returned == EngineEvent::<C>::RemoveDatamapValue(
                var,
            ),
            outcome matches Err(e) ==> e == EngineError::ChannelClosed,
    {
        self.send(EngineEvent::RemoveDatamapValue(var))
    }

    /// Asks the engine to play a sound.
    pub fn play_sound(&self, source: AudioSource) -> (outcome: Result<
        Option<EngineEvent<C>>,
        EngineError,
    >)
        ensures
            outcome matches Ok(Some(returned)) ==> returned == EngineEvent::<C>::PlaySound(source),
            outcome matches Err(e) ==> e == EngineError::ChannelClosed,
    {
        self.send(EngineEvent::PlaySound(source))
    }
}

} // verus!
