//! The engine core: the registry of scenes, the active scene, input and
//! collision trackers, the event queue, and the steps of a frame.
//!
//! A host drives the engine. It feeds key and mouse events as they arrive,
//! and once per frame calls [`Engine::frame`] with the time that went by; the
//! engine steps the physics, ticks the behaviours, synchronises the entity
//! positions and drains the event queue, and reports what the host has to do
//! (sounds to play, entities whose body is gone).

use vstd::prelude::*;
use rapier2d::pipeline::PhysicsPipeline;
use rapier2d::pipeline::QueryPipeline;
use crate::audio::basic::AudioSource;
use crate::events::EngineError;
use crate::events::send_outcome;
use crate::events::EngineEvent;
use crate::events::data_after;
use crate::events::data_after_all;
use crate::events::EventModel;
use crate::events::PullCallback;
use crate::game_object::behaviours::behaviour_ticked;
use crate::game_object::behaviours::loaded_ran;
use crate::game_object::behaviours::unloaded_ran;
use crate::game_object::behaviours::EngineView;
use crate::game_object::behaviours::UserBehaviour;
use crate::game_object::behaviours_copied;
use crate::game_object::oldest;
use crate::game_object::GameObject;
use crate::latch::latch_step;
use crate::latch::EdgeLatch;
use crate::physics::body_positions;
use crate::physics::collider_parents;
use crate::physics::collider_tags;
use crate::physics::new_physics_pipeline;
use crate::physics::new_query_pipeline;
use crate::scene::Scene;
use crate::keyboard::InputState;
use crate::tables::NameTable;
use crate::timestep::frame_rest;
use crate::timestep::frame_steps;
use crate::timestep::units_of_millis;
use crate::timestep::units_of_nanos;
use crate::timestep::UNITS_PER_MILLI;
use crate::timestep::StepAccumulator;
use crate::ui::frontend::RGBColor;

verus! {

/// Capacity of the event queue: the intents of one frame.
pub const EVENT_QUEUE_CAPACITY: usize = 60;

/// State of the mouse. The position is a pair of `f64` coordinates held as
/// their bit patterns.
#[derive(Clone, Copy, Debug, PartialEq, Eq, Structural)]
pub struct MouseData {
    pub is_middle_pressed: bool,
    pub is_left_pressed: bool,
    pub is_right_pressed: bool,
    pub mouse_x_bits: u64,
    pub mouse_y_bits: u64,
}

#[derive(Clone, Copy, Debug, PartialEq, Eq, Structural)]
pub enum MouseButton {
    Left,
    Right,
    Middle,
}

/// Settings of an engine. The gravity is the vertical acceleration, an `f32`
/// held as its bit pattern.
#[derive(Clone, Copy, Debug, PartialEq, Eq, Structural)]
pub struct EngineConfig {
    pub gravity_bits: u32,
    pub clear_color: RGBColor,
}

/// What a drain of the event queue leaves for the host to do.
pub struct DrainReport {
    /// Sounds to play, in the order they were asked for.
    pub sounds: Vec<AudioSource>,
    /// The errors of the events that failed, in the order of the events.
    /// An event that fails is passed over; the drain goes on behind it.
    pub failures: Vec<EngineError>,
    /// Whether the queue turned out to be closed.
    pub channel_closed: bool,
}

/// What a frame leaves for the host to do.
pub struct FrameReport {
    /// Physics steps taken in this frame.
    pub steps: u64,
    /// Positions in the entity list of the entities whose rigid body was not
    /// found; their positions were left as they were.
    pub stale_entities: Vec<usize>,
    /// Sounds to play, in the order they were asked for.
    pub sounds: Vec<AudioSource>,
    /// The errors of the events that failed, in the order of the events.
    pub failures: Vec<EngineError>,
    /// Whether the queue turned out to be closed.
    pub channel_closed: bool,
}

pub enum DispatchKind {
    Load,
    Unload,
    Tick,
}

/// One call into the behaviours of an entity: which hook, in which
/// activation of a scene, on which entity of the list.
pub struct Dispatch {
    pub kind: DispatchKind,
    pub activation: nat,
    pub entity: nat,
}

pub open spec fn load_of(activation: nat, entity: nat) -> Dispatch {
    Dispatch { kind: DispatchKind::Load, activation, entity }
}

pub open spec fn unload_of(activation: nat, entity: nat) -> Dispatch {
    Dispatch { kind: DispatchKind::Unload, activation, entity }
}

pub open spec fn tick_of(activation: nat, entity: nat) -> Dispatch {
    Dispatch { kind: DispatchKind::Tick, activation, entity }
}

/// `on_load` for the first `count` entities, in list order.
pub open spec fn loads(activation: nat, count: nat) -> Seq<Dispatch> {
    Seq::new(count, |e: int| load_of(activation, e as nat))
}

/// `on_unload` for the first `count` entities, in list order.
pub open spec fn unloads(activation: nat, count: nat) -> Seq<Dispatch> {
    Seq::new(count, |e: int| unload_of(activation, e as nat))
}

/// `on_tick` for the first `count` entities, in list order.
pub open spec fn ticks(activation: nat, count: nat) -> Seq<Dispatch> {
    Seq::new(count, |e: int| tick_of(activation, e as nat))
}

/// Every tick of an entity comes after the load of that entity in the same
/// activation, and no unload of it comes before the tick.
pub open spec fn lifecycle_ok(trace: Seq<Dispatch>) -> bool {
    forall|i: int|
        0 <= i < trace.len() && (#[trigger] trace[i]).kind is Tick ==> {
            &&& trace.take(i).contains(load_of(trace[i].activation, trace[i].entity))
            &&& !trace.take(i).contains(unload_of(trace[i].activation, trace[i].entity))
        }
}

/// What the engine keeps true of its dispatch history: the lifecycle rule;
/// no record is from a later activation than the current one; and while a
/// scene is active with `active` entities, each of them was loaded in the
/// current activation and none was unloaded in it.
pub open spec fn trace_ok(trace: Seq<Dispatch>, activation: nat, active: Option<nat>) -> bool {
    &&& lifecycle_ok(trace)
    &&& forall|i: int| 0 <= i < trace.len() ==> (#[trigger] trace[i]).activation <= activation
    &&& active matches Some(count) ==> {
        &&& forall|e: nat| e < count ==> trace.contains(#[trigger] load_of(activation, e))
        &&& forall|i: int|
            0 <= i < trace.len() && (#[trigger] trace[i]).kind is Unload ==> trace[i].activation
                < activation
    }
}

/// Records that are not ticks can always be appended.
pub proof fn lemma_append_keeps_lifecycle(trace: Seq<Dispatch>, record: Dispatch)
    requires
        lifecycle_ok(trace),
        !(record.kind is Tick),
    ensures
        lifecycle_ok(trace.push(record)),
{
    let longer = trace.push(record);
    assert forall|i: int| 0 <= i < longer.len() && (#[trigger] longer[i]).kind is Tick implies {
        &&& longer.take(i).contains(load_of(longer[i].activation, longer[i].entity))
        &&& !longer.take(i).contains(unload_of(longer[i].activation, longer[i].entity))
    } by {
        assert(i < trace.len());
        assert(longer.take(i) =~= trace.take(i));
        assert(longer[i] == trace[i]);
    }
}

/// A tick can be appended for an entity that was loaded and not unloaded.
pub proof fn lemma_append_tick_keeps_lifecycle(trace: Seq<Dispatch>, activation: nat, entity: nat)
    requires
        lifecycle_ok(trace),
        trace.contains(load_of(activation, entity)),
        !trace.contains(unload_of(activation, entity)),
    ensures
        lifecycle_ok(trace.push(tick_of(activation, entity))),
{
    let longer = trace.push(tick_of(activation, entity));
    assert forall|i: int| 0 <= i < longer.len() && (#[trigger] longer[i]).kind is Tick implies {
        &&& longer.take(i).contains(load_of(longer[i].activation, longer[i].entity))
        &&& !longer.take(i).contains(unload_of(longer[i].activation, longer[i].entity))
    } by {
        if i < trace.len() {
            assert(longer.take(i) =~= trace.take(i));
            assert(longer[i] == trace[i]);
        } else {
            assert(longer.take(i) =~= trace);
        }
    }
}

/// The scenes of a registry: each name with the scene in its slot.
pub open spec fn registry_of<B>(names: Map<Seq<char>, usize>, scenes: Seq<Scene<B>>) -> Map<
    Seq<char>,
    Scene<B>,
> {
    Map::new(|name: Seq<char>| names.contains_key(name), |name: Seq<char>| scenes[names[name] as int])
}

/// Names with slots of their own, all within the list of scenes.
pub open spec fn names_ok(names: Map<Seq<char>, usize>, slots: nat) -> bool {
    &&& forall|name: Seq<char>| #[trigger] names.contains_key(name) ==> names[name] < slots
    &&& forall|a: Seq<char>, b: Seq<char>|
        #![trigger names[a], names[b]]
        names.contains_key(a) && names.contains_key(b) && a != b ==> names[a] != names[b]
}

/// Replacing the scene in the slot of `name` changes the registry at `name`
/// and nowhere else.
proof fn lemma_registry_update<B>(
    names: Map<Seq<char>, usize>,
    scenes: Seq<Scene<B>>,
    name: Seq<char>,
    scene: Scene<B>,
)
    requires
        names_ok(names, scenes.len()),
        names.contains_key(name),
    ensures
        registry_of(names, scenes.update(names[name] as int, scene)) == registry_of(
            names,
            scenes,
        ).insert(name, scene),
{
    let updated = registry_of(names, scenes.update(names[name] as int, scene));
    let inserted = registry_of(names, scenes).insert(name, scene);
    assert forall|other: Seq<char>| #[trigger] updated.contains_key(other) implies updated[other]
        == inserted[other] by {
        if other != name {
            assert(names[other] != names[name]);
        }
    }
    assert(updated =~= inserted);
}

#[verifier::reject_recursive_types(C)]
pub struct Engine<B, C> {
    scenes: Vec<Scene<B>>,
    scene_names: NameTable,
    active_scene: Option<Scene<B>>,
    event_rx: kanal::Receiver<EngineEvent<C>>,
    event_tx: kanal::Sender<EngineEvent<C>>,
    window_width: i32,
    window_height: i32,
    input: InputState,
    collision_locks: EdgeLatch,
    mouse_data: MouseData,
    query_pipeline: QueryPipeline,
    physics_pipeline: PhysicsPipeline,
    config: EngineConfig,
    accumulator: StepAccumulator,
    last_delta_millis: u64,
    trace: Ghost<Seq<Dispatch>>,
    activations: Ghost<nat>,
}

impl<B, C> Engine<B, C> {
    /// The scenes registered so far, by name.
    pub closed spec fn registry(&self) -> Map<Seq<char>, Scene<B>> {
        registry_of(self.scene_names@, self.scenes@)
    }

    /// The scene that is active, if one is.
    pub closed spec fn active(&self) -> Option<Scene<B>> {
        self.active_scene
    }

    /// Number of entities of the active scene; zero when none is active.
    pub open spec fn entity_count(&self) -> nat {
        match self.active() {
            Some(scene) => scene.game_objects@.len(),
            None => 0,
        }
    }

    /// The data map of the active scene; empty when none is active.
    pub open spec fn data(&self) -> Map<Seq<char>, Seq<char>> {
        match self.active() {
            Some(scene) => scene.data_map@,
            None => Map::empty(),
        }
    }

    /// Every call into behaviours the engine has made, oldest first.
    pub closed spec fn trace(&self) -> Seq<Dispatch> {
        self.trace@
    }

    /// How many times a scene was made active.
    pub closed spec fn activation(&self) -> nat {
        self.activations@
    }

    /// Codes of the keys that are held.
    pub closed spec fn held_keys(&self) -> Set<u64> {
        self.input.held()
    }

    /// Codes of the held keys that were already reported as pressed.
    pub closed spec fn key_locks(&self) -> Set<u64> {
        self.input.edge_locks()
    }

    /// Keys of the colliders latched as colliding.
    pub closed spec fn collision_locks(&self) -> Set<u64> {
        self.collision_locks@
    }

    /// Time not yet paid out as a physics step, in accumulator units.
    pub closed spec fn pending_units(&self) -> nat {
        self.accumulator.units()
    }

    pub closed spec fn mouse(&self) -> MouseData {
        self.mouse_data
    }

    pub closed spec fn settings(&self) -> EngineConfig {
        self.config
    }

    pub closed spec fn window_size(&self) -> (i32, i32) {
        (self.window_width, self.window_height)
    }
}

impl<B: UserBehaviour<C>, C: PullCallback<B>> Engine<B, C> {
    /// How a request to switch to the scene registered under `name` takes
    /// this engine to `after`. With an unregistered name nothing changes.
    /// Otherwise every behaviour of the scene that was active had its
    /// `unloaded` hook called; a copy of the registered scene is active in a
    /// new activation, `loaded` as that function says; and the history grows
    /// by the unloads of the scene that was active, then by the loads of the
    /// new one.
    pub open spec fn switched(&self, after: Self, name: Seq<char>) -> bool {
        if self.registry().contains_key(name) {
            &&& after.active().is_some()
            &&& after.activation() == self.activation() + 1
            &&& after.entity_count() == self.registry()[name].game_objects@.len()
            &&& after.data() == self.registry()[name].data_map@
            &&& self.active() matches Some(departing) ==> forall|k: int|
                0 <= k < departing.game_objects@.len() ==> entity_unloaded::<B, C>(
                    #[trigger] departing.game_objects@[k],
                    self.held_keys(),
                )
            &&& loaded::<B, C>(self.registry()[name], after.active().unwrap(), self.held_keys())
            &&& after.trace() == self.trace() + unloads(self.activation(), self.entity_count())
                + loads(self.activation() + 1, after.entity_count())
        } else {
            &&& after.active() == self.active()
            &&& after.trace() == self.trace()
            &&& after.activation() == self.activation()
        }
    }

    /// How applying `event` takes this engine to `after`, and what comes of
    /// it. A switch of scene works as [`Engine::switched`] says. A sound is
    /// handed back and nothing changes. Every other event needs an active
    /// scene: data events change its data map as `data_after` says, setting
    /// a value for an unknown key being an error; a broadcast goes into the
    /// inbox of every entity; a pull request is answered, by a call of its
    /// callback with the entity that owns the collider, when the collider is
    /// live and tagged with an entity of the scene, and is an error that
    /// leaves the scene as it is otherwise.
    pub open spec fn applied(
        &self,
        after: Self,
        event: EngineEvent<C>,
        outcome: Result<Option<AudioSource>, EngineError>,
    ) -> bool {
        &&& after.wf()
        &&& after.registry() == self.registry()
        &&& after.held_keys() == self.held_keys()
        &&& after.pending_units() == self.pending_units()
        &&& after.mouse() == self.mouse()
        &&& event@ matches EventModel::SwitchToScene(name) ==> {
            &&& self.switched(after, name)
            &&& outcome == if self.registry().contains_key(name) {
                Ok::<Option<AudioSource>, EngineError>(None)
            } else {
                Err::<Option<AudioSource>, EngineError>(EngineError::MissingScene)
            }
        }
        &&& !(event@ is SwitchToScene) ==> {
            &&& after.trace() == self.trace()
            &&& after.activation() == self.activation()
            &&& after.active().is_some() == self.active().is_some()
            &&& after.entity_count() == self.entity_count()
        }
        &&& event@ matches EventModel::PlaySound(source) ==> {
            &&& outcome.is_ok()
            &&& outcome.unwrap() == Some(event->PlaySound_0)
            &&& after.active() == self.active()
        }
        &&& !(event@ is SwitchToScene) && self.active().is_some() ==> after.data()
            == data_after(self.data(), event@)
        &&& (event@ is SetDatamapValue || event@ is InsertDatamapValue || event@
            is RemoveDatamapValue) && self.active().is_some() ==> after.active().unwrap() == (Scene {
            data_map: after.active().unwrap().data_map,
            ..self.active().unwrap()
        })
        &&& !(event@ is SwitchToScene) && !(event@ is PlaySound) && self.active().is_none()
            ==> {
            &&& outcome == Err::<Option<AudioSource>, EngineError>(EngineError::NoActiveScene)
            &&& after.active().is_none()
        }
        &&& self.active().is_some() ==> {
            &&& event@ matches EventModel::SetDatamapValue(key, value) ==> {
                if self.data().contains_key(key) {
                    &&& outcome == Ok::<Option<AudioSource>, EngineError>(None)
                    &&& after.data() == self.data().insert(key, value)
                } else {
                    &&& outcome == Err::<Option<AudioSource>, EngineError>(
                        EngineError::MissingDataKey,
                    )
                    &&& after.data() == self.data()
                }
            }
            &&& event@ matches EventModel::InsertDatamapValue(key, value) ==> {
                &&& outcome == Ok::<Option<AudioSource>, EngineError>(None)
                &&& after.data() == self.data().insert(key, value)
            }
            &&& event@ matches EventModel::RemoveDatamapValue(key) ==> {
                &&& outcome == Ok::<Option<AudioSource>, EngineError>(None)
                &&& after.data() == self.data().remove(key)
            }
            &&& event@ matches EventModel::UserEvent(bytes) ==> {
                &&& outcome == Ok::<Option<AudioSource>, EngineError>(None)
                &&& after.data() == self.data()
                &&& broadcast_delivered(
                    self.active().unwrap(),
                    after.active().unwrap(),
                    bytes,
                )
            }
            &&& event@ matches EventModel::PullGameObject(handle, callback) ==> {
                &&& after.data() == self.data()
                &&& after.active().unwrap().game_objects == self.active().unwrap().game_objects
                &&& match pulled_entity(self.active().unwrap(), handle) {
                    Some(index) => {
                        &&& outcome == Ok::<Option<AudioSource>, EngineError>(None)
                        &&& answered(self.active().unwrap(), callback, index, self.held_keys())
                    },
                    None => {
                        &&& outcome == Err::<Option<AudioSource>, EngineError>(
                            EngineError::MissingHandle,
                        )
                        &&& after.active() == self.active()
                        &&& after.key_locks() == self.key_locks()
                        &&& after.collision_locks() == self.collision_locks()
                    },
                }
            }
        }
    }

    /// The sounds among the outcomes of a run of events, in order.
    pub open spec fn sounds_of(results: Seq<Result<Option<AudioSource>, EngineError>>) -> Seq<
        AudioSource,
    >
        decreases results.len(),
    {
        if results.len() == 0 {
            Seq::empty()
        } else {
            match results.last() {
                Ok(Some(source)) => Self::sounds_of(results.drop_last()).push(source),
                _ => Self::sounds_of(results.drop_last()),
            }
        }
    }

    /// The errors among the outcomes of a run of events, in order.
    pub open spec fn failures_of(results: Seq<Result<Option<AudioSource>, EngineError>>) -> Seq<
        EngineError,
    >
        decreases results.len(),
    {
        if results.len() == 0 {
            Seq::empty()
        } else {
            match results.last() {
                Err(e) => Self::failures_of(results.drop_last()).push(e),
                _ => Self::failures_of(results.drop_last()),
            }
        }
    }

    /// The events applied one after the other, oldest first. `states` are
    /// the engine before the first event and after each event: every event
    /// was applied to the engine as the event before it left it, with the
    /// outcome at its place in `results`. An event that fails does not stop
    /// the run.
    pub open spec fn chained(
        &self,
        after: Self,
        events: Seq<EngineEvent<C>>,
        states: Seq<Self>,
        results: Seq<Result<Option<AudioSource>, EngineError>>,
    ) -> bool {
        &&& states.len() == events.len() + 1
        &&& results.len() == events.len()
        &&& states[0] == *self
        &&& states.last() == after
        &&& forall|i: int|
            0 <= i < events.len() ==> states[i].applied(
                states[i + 1],
                events[i],
                #[trigger] results[i],
            )
    }

    /// What applying `events` one after the other did, and what it left for
    /// the host: the sounds that the events asked for, and the errors of
    /// those that failed, each in the order of the events.
    pub open spec fn drained(
        &self,
        after: Self,
        events: Seq<EngineEvent<C>>,
        states: Seq<Self>,
        results: Seq<Result<Option<AudioSource>, EngineError>>,
        report: DrainReport,
    ) -> bool {
        &&& self.chained(after, events, states, results)
        &&& report.sounds@ == Self::sounds_of(results)
        &&& report.failures@ == Self::failures_of(results)
    }

    /// One frame as a chain: the physics stepped, then every entity ticked,
    /// then the positions synchronised, then the queued `events` applied,
    /// the engine passing through `a`, `b` and `c` on its way to `after`.
    pub open spec fn frame_chain(
        &self,
        after: Self,
        added: nat,
        report: FrameReport,
        a: Self,
        b: Self,
        c: Self,
        events: Seq<EngineEvent<C>>,
        states: Seq<Self>,
        results: Seq<Result<Option<AudioSource>, EngineError>>,
    ) -> bool {
        &&& self.physics_stepped(a, added, Ok(report.steps))
        &&& a.ticks_run(b, Ok(()))
        &&& b.positions_synced(c, Ok(report.stale_entities))
        &&& c.chained(after, events, states, results)
        &&& report.sounds@ == Self::sounds_of(results)
        &&& report.failures@ == Self::failures_of(results)
    }

    /// How a frame in which `added` units of time are accounted for takes
    /// this engine to `after`. Without an active scene the frame fails with
    /// `NoActiveScene` and changes nothing. With one it succeeds, and the
    /// engine went through a [`Engine::frame_chain`] for some events that
    /// the queue held; the report has the steps taken, the entities passed
    /// over in the synchronisation, and the sounds and errors of the events.
    pub open spec fn framed(
        &self,
        after: Self,
        added: nat,
        outcome: Result<FrameReport, EngineError>,
    ) -> bool {
        match self.active() {
            None => {
                &&& outcome matches Err(e) && e == EngineError::NoActiveScene
                &&& after.active().is_none()
                &&& after.registry() == self.registry()
                &&& after.trace() == self.trace()
                &&& after.activation() == self.activation()
                &&& after.pending_units() == self.pending_units()
                &&& after.held_keys() == self.held_keys()
                &&& after.key_locks() == self.key_locks()
                &&& after.collision_locks() == self.collision_locks()
                &&& after.mouse() == self.mouse()
            },
            Some(_) => outcome matches Ok(report) && self.frame_done(after, added, report),
        }
    }

    /// There are events and engines in between that make a
    /// [`Engine::frame_chain`] from this engine to `after` with this report.
    pub open spec fn frame_done(&self, after: Self, added: nat, report: FrameReport) -> bool {
        exists|
            a: Self,
            b: Self,
            c: Self,
            events: Seq<EngineEvent<C>>,
            states: Seq<Self>,
            results: Seq<Result<Option<AudioSource>, EngineError>>,
        | #[trigger]
            self.frame_chain(after, added, report, a, b, c, events, states, results)
    }

    /// The views of a run of events.
    pub open spec fn views_of(events: Seq<EngineEvent<C>>) -> Seq<EventModel<C>> {
        Seq::new(events.len(), |i: int| events[i]@)
    }

    /// How one tick of every entity takes this engine to `after`. Without
    /// an active scene the tick fails and nothing changes. Otherwise the
    /// history grows by a tick of every entity, in list order, and the
    /// scene is `ticked`: every behaviour of every entity was run.
    pub open spec fn ticks_run(&self, after: Self, outcome: Result<(), EngineError>) -> bool {
        &&& after.wf()
        &&& outcome == if self.active().is_some() {
            Ok::<(), EngineError>(())
        } else {
            Err::<(), EngineError>(EngineError::NoActiveScene)
        }
        &&& after.trace() == self.trace() + ticks(
            self.activation(),
            self.entity_count(),
        )
        &&& after.active().is_some() == self.active().is_some()
        &&& after.entity_count() == self.entity_count()
        &&& after.data() == self.data()
        &&& after.activation() == self.activation()
        &&& after.registry() == self.registry()
        &&& after.held_keys() == self.held_keys()
        &&& after.pending_units() == self.pending_units()
        &&& after.mouse() == self.mouse()
        &&& self.active().is_some() ==> ticked::<B, C>(
            self.active().unwrap(),
            after.active().unwrap(),
            self.held_keys(),
        )
        &&& self.active().is_some() && without_behaviours(self.active().unwrap()) ==> {
            &&& after.key_locks() == self.key_locks()
            &&& after.collision_locks() == self.collision_locks()
        }
    }

    /// How synchronising the positions takes this engine to `after`.
    /// Without an active scene it fails and nothing changes. Otherwise the
    /// scene is `synced`, and the outcome names the entities whose body was
    /// not found.
    pub open spec fn positions_synced(&self, after: Self, outcome: Result<Vec<usize>, EngineError>) -> bool {
        &&& after.wf()
        &&& after.registry() == self.registry()
        &&& after.trace() == self.trace()
        &&& after.activation() == self.activation()
        &&& after.held_keys() == self.held_keys()
        &&& after.key_locks() == self.key_locks()
        &&& after.collision_locks() == self.collision_locks()
        &&& after.pending_units() == self.pending_units()
        &&& after.mouse() == self.mouse()
        &&& after.active().is_some() == self.active().is_some()
        &&& self.active().is_none() ==> outcome == Err::<Vec<usize>, EngineError>(
            EngineError::NoActiveScene,
        )
        &&& self.active().is_some() ==> {
            &&& outcome.is_ok()
            &&& synced(self.active().unwrap(), after.active().unwrap())
            &&& stale_report(self.active().unwrap(), outcome.unwrap()@)
        }
    }

    /// How accounting for `added` units of time and stepping the physics
    /// takes this engine to `after`. Without an active scene it fails and
    /// nothing changes. Otherwise the accumulator pays out the whole steps
    /// that are due, and the world of the active scene is advanced by
    /// exactly that many steps.
    pub open spec fn physics_stepped(
        &self,
        after: Self,
        added: nat,
        outcome: Result<u64, EngineError>,
    ) -> bool {
        &&& after.wf()
        &&& after.registry() == self.registry()
        &&& after.trace() == self.trace()
        &&& after.activation() == self.activation()
        &&& after.held_keys() == self.held_keys()
        &&& after.key_locks() == self.key_locks()
        &&& after.collision_locks() == self.collision_locks()
        &&& after.mouse() == self.mouse()
        &&& match self.active() {
            None => {
                &&& outcome == Err::<u64, EngineError>(EngineError::NoActiveScene)
                &&& after.active().is_none()
                &&& after.pending_units() == self.pending_units()
            },
            Some(scene) => {
                &&& outcome matches Ok(steps) && steps == frame_steps(self.pending_units(), added)
                &&& after.pending_units() == frame_rest(self.pending_units(), added)
                &&& after.active() matches Some(next) && stepped(
                    scene,
                    next,
                    frame_steps(self.pending_units(), added),
                )
            },
        }
    }
}

impl<B, C> Engine<B, C> {
    /// Every registered name has a slot of its own, and the dispatch history
    /// obeys the lifecycle rule.
    pub closed spec fn wf(&self) -> bool {
        &&& names_ok(self.scene_names@, self.scenes@.len())
        &&& trace_ok(
            self.trace@,
            self.activations@,
            match self.active_scene {
                Some(scene) => Some(scene.game_objects@.len()),
                None => None,
            },
        )
    }

    /// Scene switches are atomic for behaviours: in the history of a
    /// well-formed engine, an entity is ticked only after it was loaded in
    /// the same activation, and never after it was unloaded.
    pub proof fn lemma_switch_is_atomic(&self, i: int)
        requires
            self.wf(),
            0 <= i < self.trace().len(),
            self.trace()[i].kind is Tick,
        ensures
            self.trace().take(i).contains(
                load_of(self.trace()[i].activation, self.trace()[i].entity),
            ),
            !self.trace().take(i).contains(
                unload_of(self.trace()[i].activation, self.trace()[i].entity),
            ),
    {
    }

    /// An engine without scenes. The event queue holds up to
    /// [`EVENT_QUEUE_CAPACITY`] events.
    pub fn new(window_width: i32, window_height: i32, config: EngineConfig) -> (engine: Engine<
        B,
        C,
    >)
        ensures
            engine.wf(),
            engine.active().is_none(),
            (engine.registry() == Map::<Seq<char>, Scene<B>>::empty()),
            engine.trace() == Seq::<Dispatch>::empty(),
            engine.activation() == 0,
            engine.held_keys() == Set::<u64>::empty(),
            engine.key_locks() == Set::<u64>::empty(),
            engine.collision_locks() == Set::<u64>::empty(),
            engine.pending_units() == 0,
            engine.settings() == config,
            engine.window_size() == (window_width, window_height),
            engine.mouse() == (MouseData {
                is_middle_pressed: false,
                is_left_pressed: false,
                is_right_pressed: false,
                mouse_x_bits: 0,
                mouse_y_bits: 0,
            }),
    {
        let (event_tx, event_rx) = kanal::bounded(EVENT_QUEUE_CAPACITY);
        let engine = Engine {
            scenes: Vec::new(),
            scene_names: NameTable::new(),
            active_scene: None,
            event_rx,
            event_tx,
            window_width,
            window_height,
            input: InputState::new(),
            collision_locks: EdgeLatch::new(),
            mouse_data: MouseData {
                is_middle_pressed: false,
                is_left_pressed: false,
                is_right_pressed: false,
                mouse_x_bits: 0,
                mouse_y_bits: 0,
            },
            query_pipeline: new_query_pipeline(),
            physics_pipeline: new_physics_pipeline(),
            config,
            accumulator: StepAccumulator::new(),
            last_delta_millis: 0,
            trace: Ghost(Seq::empty()),
            activations: Ghost(0),
        };
        assert(engine.registry() =~= Map::<Seq<char>, Scene<B>>::empty());
        engine
    }

    /// A key went down.
    pub fn key_pressed(&mut self, key: u32)
        requires
            old(self).wf(),
        ensures
            final(self).wf(),
            final(self).held_keys() == old(self).held_keys().insert(key as u64),
            final(self).key_locks() == old(self).key_locks(),
            final(self).collision_locks() == old(self).collision_locks(),
            final(self).active() == old(self).active(),
            final(self).registry() == old(self).registry(),
            final(self).trace() == old(self).trace(),
            final(self).activation() == old(self).activation(),
            final(self).pending_units() == old(self).pending_units(),
    {
        self.input.press(key);
    }

    /// A key came up.
    pub fn key_released(&mut self, key: u32)
        requires
            old(self).wf(),
        ensures
            final(self).wf(),
            final(self).held_keys() == old(self).held_keys().remove(key as u64),
            final(self).key_locks() == old(self).key_locks(),
            final(self).collision_locks() == old(self).collision_locks(),
            final(self).active() == old(self).active(),
            final(self).registry() == old(self).registry(),
            final(self).trace() == old(self).trace(),
            final(self).activation() == old(self).activation(),
            final(self).pending_units() == old(self).pending_units(),
    {
        self.input.release(key);
    }

    /// A mouse button went down or came up.
    pub fn mouse_button(&mut self, button: MouseButton, pressed: bool)
        requires
            old(self).wf(),
        ensures
            final(self).wf(),
            final(self).mouse() == match button {
                MouseButton::Left => MouseData { is_left_pressed: pressed, ..old(self).mouse() },
                MouseButton::Right => MouseData { is_right_pressed: pressed, ..old(self).mouse() },
                MouseButton::Middle => MouseData {
                    is_middle_pressed: pressed,
                    ..old(self).mouse()
                },
            },
            final(self).held_keys() == old(self).held_keys(),
            final(self).active() == old(self).active(),
            final(self).registry() == old(self).registry(),
            final(self).trace() == old(self).trace(),
            final(self).activation() == old(self).activation(),
    {
        match button {
            MouseButton::Left => {
                self.mouse_data.is_left_pressed = pressed;
            },
            MouseButton::Right => {
                self.mouse_data.is_right_pressed = pressed;
            },
            MouseButton::Middle => {
                self.mouse_data.is_middle_pressed = pressed;
            },
        }
    }

    /// The cursor moved.
    pub fn mouse_moved(&mut self, x_bits: u64, y_bits: u64)
        requires
            old(self).wf(),
        ensures
            final(self).wf(),
            final(self).mouse() == (MouseData {
                mouse_x_bits: x_bits,
                mouse_y_bits: y_bits,
                ..old(self).mouse()
            }),
            final(self).held_keys() == old(self).held_keys(),
            final(self).active() == old(self).active(),
            final(self).registry() == old(self).registry(),
            final(self).trace() == old(self).trace(),
            final(self).activation() == old(self).activation(),
    {
        self.mouse_data.mouse_x_bits = x_bits;
        self.mouse_data.mouse_y_bits = y_bits;
    }

    pub fn mouse_data(&self) -> (mouse: MouseData)
        ensures
            mouse == self.mouse(),
    {
        self.mouse_data
    }

    pub fn config(&self) -> (config: EngineConfig)
        ensures
            config == self.settings(),
    {
        self.config
    }

    pub fn is_key_down(&self, key: u32) -> (down: bool)
        ensures
            down == self.held_keys().contains(key as u64),
    {
        self.input.is_key_down(key)
    }

    /// Whether the key went down since this question was last asked of it,
    /// by the host or by a behaviour: `true` at the first call that finds
    /// the key held, `false` while it stays held, and `true` again only
    /// after a call found it released.
    pub fn is_key_pressed(&mut self, key: u32) -> (pressed: bool)
        requires
            old(self).wf(),
        ensures
            final(self).wf(),
            (final(self).key_locks(), pressed) == latch_step(
                old(self).key_locks(),
                key as u64,
                old(self).held_keys().contains(key as u64),
            ),
            final(self).held_keys() == old(self).held_keys(),
            final(self).collision_locks() == old(self).collision_locks(),
            final(self).active() == old(self).active(),
            final(self).registry() == old(self).registry(),
            final(self).trace() == old(self).trace(),
            final(self).activation() == old(self).activation(),
            final(self).pending_units() == old(self).pending_units(),
            final(self).mouse() == old(self).mouse(),
    {
        self.input.is_key_pressed(key)
    }

    /// The scene that is active, if one is.
    pub fn active_scene(&self) -> (scene: Option<&Scene<B>>)
        ensures
            scene.is_some() == self.active().is_some(),
            scene.is_some() ==> *scene.unwrap() == self.active().unwrap(),
    {
        self.active_scene.as_ref()
    }

    /// The scene registered under `name`, if one is.
    pub fn scene(&self, name: &str) -> (scene: Option<&Scene<B>>)
        requires
            self.wf(),
        ensures
            scene.is_some() == self.registry().contains_key(name@),
            scene.is_some() ==> *scene.unwrap() == self.registry()[name@],
    {
        match self.scene_names.get(name) {
            Some(slot) => Some(&self.scenes[slot]),
            None => None,
        }
    }

    /// Hands an event to the queue without waiting. `Ok(None)`: the event is
    /// queued. `Ok(Some(event))`: the queue is full and the event comes
    /// back. `Err(ChannelClosed)`: the queue is closed.
    pub fn send(&self, event: EngineEvent<C>) -> (outcome: Result<
        Option<EngineEvent<C>>,
        EngineError,
    >)
        ensures
            outcome matches Ok(Some(returned)) ==> returned == event,
            outcome matches Err(e) ==> e == EngineError::ChannelClosed,
    {
        let mut slot = Some(event);
        let sent = self.event_tx.try_send_option(&mut slot);
        send_outcome(sent, slot)
    }
}

impl<B, C> Engine<B, C> {
    /// Registers an empty scene under `scene_name`, replacing a scene that
    /// was registered under that name, and hands it out to be filled.
    pub fn register_scene(&mut self, scene_name: String) -> (scene: &mut Scene<B>)
        requires
            old(self).wf(),
        ensures
            scene.wf(),
            scene.game_objects@.len() == 0,
            scene.ui_ast.is_none(),
            (scene.data_map@ == Map::<Seq<char>, Seq<char>>::empty()),
            (scene.function_map@ == Map::<Seq<char>, usize>::empty()),
            body_positions(scene.world.bodies()).dom() == Set::<(u32, u32)>::empty(),
            collider_parents(scene.world.colliders()).dom() == Set::<(u32, u32)>::empty(),
            final(self).wf(),
            final(self).registry() == old(self).registry().insert(scene_name@, *final(scene)),
            final(self).active() == old(self).active(),
            final(self).trace() == old(self).trace(),
            final(self).activation() == old(self).activation(),
            final(self).held_keys() == old(self).held_keys(),
            final(self).key_locks() == old(self).key_locks(),
            final(self).collision_locks() == old(self).collision_locks(),
            final(self).pending_units() == old(self).pending_units(),
    {
        let slot: usize = match self.scene_names.get(scene_name.as_str()) {
            Some(slot) => {
                self.scenes[slot] = Scene::new();
                slot
            },
            None => {
                self.scenes.push(Scene::new());
                let slot: usize = self.scenes.len() - 1;
                self.scene_names.insert(scene_name, slot);
                slot
            },
        };
        proof {
            let names = self.scene_names@;
            let scenes = self.scenes@;
            assert(names_ok(names, scenes.len()));
            assert(registry_of(names, scenes) =~= old(self).registry().insert(
                scene_name@,
                scenes[slot as int],
            ));
            assert forall|scene: Scene<B>| #[trigger]
                registry_of(names, scenes.update(slot as int, scene)) == old(
                    self,
                ).registry().insert(scene_name@, scene) by {
                lemma_registry_update(names, scenes, scene_name@, scene);
                assert(registry_of(names, scenes).insert(scene_name@, scene) =~= old(
                    self,
                ).registry().insert(scene_name@, scene));
            }
        }
        &mut self.scenes[slot]
    }
}

impl<B: UserBehaviour<C>, C: PullCallback<B>> Engine<B, C> {
    /// Ticks every entity of the active scene once, in list order. Each
    /// entity's behaviours run with views made for that call alone.
    pub fn tick(&mut self) -> (outcome: Result<(), EngineError>)
        requires
            old(self).wf(),
        ensures
            final(self).wf(),
            old(self).ticks_run(*final(self), outcome),
    {
        let taken = self.active_scene.take();
        match taken {
            None => {
                assert(self.trace@ =~= old(self).trace@ + ticks(old(self).activation(), 0));
                Err(EngineError::NoActiveScene)
            },
            Some(scene) => {
                let mut scene = scene;
                let count: usize = scene.game_objects.len();
                let ghost activation = self.activations@;
                let mut i: usize = 0;
                while i < count
                    invariant
                        i <= count,
                        count == scene.game_objects@.len(),
                        activation == old(self).activations@,
                        self.activations@ == activation,
                        self.trace@ == old(self).trace@ + ticks(activation, i as nat),
                        trace_ok(self.trace@, activation, Some(count as nat)),
                        self.scenes == old(self).scenes,
                        self.scene_names == old(self).scene_names,
                        self.input.held == old(self).input.held,
                        self.accumulator == old(self).accumulator,
                        self.mouse_data == old(self).mouse_data,
                        scene.data_map == old(self).active_scene.unwrap().data_map,
                        scene.function_map == old(self).active_scene.unwrap().function_map,
                        scene.ui_ast == old(self).active_scene.unwrap().ui_ast,
                        scene.current_game_object_id == old(
                            self,
                        ).active_scene.unwrap().current_game_object_id,
                        forall|k: int|
                            0 <= k < i ==> ticked_object::<B, C>(
                                old(self).active_scene.unwrap().game_objects@[k],
                                #[trigger] scene.game_objects@[k],
                                old(self).input.held@,
                            ),
                        forall|k: int|
                            i <= k < count ==> #[trigger] scene.game_objects@[k] == old(
                                self,
                            ).active_scene.unwrap().game_objects@[k],
                        (forall|k: int|
                            0 <= k < i ==> (#[trigger] old(
                                self,
                            ).active_scene.unwrap().game_objects@[k]).behaviours@.len() == 0) ==> {
                            &&& scene.world == old(self).active_scene.unwrap().world
                            &&& self.input.edge_locks == old(self).input.edge_locks
                            &&& self.collision_locks == old(self).collision_locks
                        },
                    decreases count - i,
                {
                    scene.game_objects[i].execute(
                        &mut scene.world,
                        &self.event_tx,
                        &self.input.held,
                        &mut self.input.edge_locks,
                        &mut self.query_pipeline,
                        self.last_delta_millis,
                        &mut self.collision_locks,
                    );
                    proof {
                        let before = self.trace@;
                        let record = tick_of(activation, i as nat);
                        assert(before.contains(load_of(activation, i as nat)));
                        assert(!before.contains(unload_of(activation, i as nat)));
                        lemma_append_tick_keeps_lifecycle(before, activation, i as nat);
                        self.trace = Ghost(before.push(record));
                        assert(self.trace@ =~= old(self).trace@ + ticks(activation, (i + 1) as nat));
                        assert forall|e: nat| e < count implies self.trace@.contains(
                            #[trigger] load_of(activation, e),
                        ) by {
                            let j = choose|j: int|
                                0 <= j < before.len() && before[j] == load_of(activation, e);
                            assert(self.trace@[j] == load_of(activation, e));
                        }
                    }
                    i = i + 1;
                }
                self.active_scene = Some(scene);
                Ok(())
            },
        }
    }

    /// Makes a copy of the scene registered under `new_scene` the active
    /// scene. The entities of the scene that was active are unloaded first,
    /// in list order; then the entities of the new scene are loaded, in list
    /// order. An unregistered name is an error and changes nothing.
    pub fn set_current_scene(&mut self, new_scene: String) -> (outcome: Result<(), EngineError>)
        requires
            old(self).wf(),
        ensures
            final(self).wf(),
            final(self).registry() == old(self).registry(),
            final(self).held_keys() == old(self).held_keys(),
            final(self).pending_units() == old(self).pending_units(),
            final(self).mouse() == old(self).mouse(),
            outcome == if old(self).registry().contains_key(new_scene@) {
                Ok::<(), EngineError>(())
            } else {
                Err::<(), EngineError>(EngineError::MissingScene)
            },
            old(self).switched(*final(self), new_scene@),
    {
        let slot: usize = match self.scene_names.get(new_scene.as_str()) {
            Some(slot) => slot,
            None => {
                return Err(EngineError::MissingScene);
            },
        };
        let ghost activation = self.activations@;
        let ghost departing = self.entity_count();
        let taken = self.active_scene.take();
        match taken {
            Some(scene) => {
                let mut scene = scene;
                let count: usize = scene.game_objects.len();
                let mut i: usize = 0;
                while i < count
                    invariant
                        i <= count,
                        count == scene.game_objects@.len(),
                        count == departing,
                        self.activations@ == activation,
                        self.trace@ == old(self).trace@ + unloads(activation, i as nat),
                        lifecycle_ok(self.trace@),
                        forall|k: int|
                            0 <= k < self.trace@.len() ==> (#[trigger] self.trace@[k]).activation
                                <= activation,
                        self.scenes == old(self).scenes,
                        self.scene_names == old(self).scene_names,
                        self.input.held == old(self).input.held,
                        self.accumulator == old(self).accumulator,
                        self.mouse_data == old(self).mouse_data,
                        self.active_scene.is_none(),
                        forall|k: int|
                            0 <= k < i ==> entity_unloaded::<B, C>(
                                #[trigger] old(self).active_scene.unwrap().game_objects@[k],
                                old(self).input.held@,
                            ),
                        forall|k: int|
                            i <= k < count ==> #[trigger] scene.game_objects@[k] == old(
                                self,
                            ).active_scene.unwrap().game_objects@[k],
                    decreases count - i,
                {
                    let ghost before = self.trace@;
                    scene.game_objects[i].unloading(
                        &mut scene.world,
                        &self.event_tx,
                        &self.input.held,
                        &mut self.input.edge_locks,
                        &mut self.query_pipeline,
                        self.last_delta_millis,
                        &mut self.collision_locks,
                        &mut self.trace,
                        Ghost(activation),
                        Ghost(i as nat),
                    );
                    proof {
                        lemma_append_keeps_lifecycle(before, unload_of(activation, i as nat));
                        assert(self.trace@ =~= old(self).trace@ + unloads(
                            activation,
                            (i + 1) as nat,
                        ));
                    }
                    i = i + 1;
                }
            },
            None => {
                assert(self.trace@ =~= old(self).trace@ + unloads(activation, 0));
            },
        }
        let mut scene = self.scenes[slot].duplicate();
        let count: usize = scene.game_objects.len();
        let ghost duplicated = scene;
        let ghost unloaded = self.trace@;
        proof {
            self.activations = Ghost(activation + 1);
        }
        let mut i: usize = 0;
        while i < count
            invariant
                i <= count,
                count == scene.game_objects@.len(),
                self.activations@ == activation + 1,
                unloaded == old(self).trace@ + unloads(activation, departing),
                self.trace@ == unloaded + loads(activation + 1, i as nat),
                lifecycle_ok(self.trace@),
                forall|k: int|
                    0 <= k < unloaded.len() ==> (#[trigger] unloaded[k]).activation <= activation,
                self.scenes == old(self).scenes,
                self.scene_names == old(self).scene_names,
                self.input.held == old(self).input.held,
                self.accumulator == old(self).accumulator,
                self.mouse_data == old(self).mouse_data,
                self.active_scene.is_none(),
                slot < old(self).scenes@.len(),
                count == duplicated.game_objects@.len(),
                scene.data_map == duplicated.data_map,
                scene.function_map == duplicated.function_map,
                scene.ui_ast == duplicated.ui_ast,
                scene.current_game_object_id == duplicated.current_game_object_id,
                copied::<B, C>(old(self).scenes@[slot as int], duplicated),
                forall|k: int|
                    0 <= k < count ==> {
                        &&& (#[trigger] scene.game_objects@[k]).id == duplicated.game_objects@[k].id
                        &&& scene.game_objects@[k].graphics == duplicated.game_objects@[k].graphics
                        &&& scene.game_objects@[k].behaviours@.len()
                            == duplicated.game_objects@[k].behaviours@.len()
                        &&& scene.game_objects@[k].inbox == duplicated.game_objects@[k].inbox
                        &&& duplicated.game_objects@[k].behaviours@.len() == 0
                            ==> scene.game_objects@[k] == duplicated.game_objects@[k]
                    },
                forall|k: int|
                    0 <= k < i ==> entity_loaded::<B, C>(
                        #[trigger] duplicated.game_objects@[k],
                        old(self).input.held@,
                    ),
                forall|k: int|
                    i <= k < count ==> #[trigger] scene.game_objects@[k]
                        == duplicated.game_objects@[k],
                (forall|k: int|
                    0 <= k < i ==> (#[trigger] duplicated.game_objects@[k]).behaviours@.len() == 0)
                    ==> scene.world == duplicated.world,
            decreases count - i,
        {
            let ghost before = self.trace@;
            scene.game_objects[i].loading(
                &mut scene.world,
                &self.event_tx,
                &self.input.held,
                &mut self.input.edge_locks,
                &mut self.query_pipeline,
                self.last_delta_millis,
                &mut self.collision_locks,
                &mut self.trace,
                Ghost(activation + 1),
                Ghost(i as nat),
            );
            proof {
                lemma_append_keeps_lifecycle(before, load_of(activation + 1, i as nat));
                assert(self.trace@ =~= unloaded + loads(activation + 1, (i + 1) as nat));
            }
            i = i + 1;
        }
        proof {
            let trace = self.trace@;
            let loaded = loads(activation + 1, count as nat);
            assert forall|e: nat| e < count implies trace.contains(
                #[trigger] load_of(activation + 1, e),
            ) by {
                assert(trace[unloaded.len() + e as int] == loaded[e as int]);
            }
            assert forall|k: int| 0 <= k < trace.len() implies (#[trigger] trace[k]).activation
                <= activation + 1 by {
                if k >= unloaded.len() {
                    assert(trace[k] == loaded[k - unloaded.len()]);
                }
            }
            assert forall|k: int|
                0 <= k < trace.len() && (#[trigger] trace[k]).kind is Unload implies trace[k].activation
                < activation + 1 by {
                if k >= unloaded.len() {
                    assert(trace[k] == loaded[k - unloaded.len()]);
                }
            }
        }
        proof {
            assert(loads_ran::<B, C>(duplicated, scene, old(self).input.held@));
            assert(loaded::<B, C>(old(self).scenes@[slot as int], scene, old(self).input.held@));
        }
        self.active_scene = Some(scene);
        Ok(())
    }

    /// Accounts for `added` units of wall-clock time and advances the
    /// physics world of the active scene by every fixed step that is now due,
    /// refreshing the ray-cast structure after each step.
    fn step_core(&mut self, added: u128) -> (outcome: Result<u64, EngineError>)
        requires
            old(self).wf(),
            added <= UNITS_PER_MILLI * u64::MAX,
        ensures
            final(self).wf(),
            old(self).physics_stepped(*final(self), added as nat, outcome),
    {
        let taken = self.active_scene.take();
        match taken {
            None => Err(EngineError::NoActiveScene),
            Some(scene) => {
                let mut scene = scene;
                let steps: u64 = self.accumulator.advance_wide(added);
                let mut done: u64 = 0;
                while done < steps
                    invariant
                        done <= steps,
                        stepped(old(self).active_scene.unwrap(), scene, done as nat),
                        self.scenes == old(self).scenes,
                        self.scene_names == old(self).scene_names,
                        self.input.held == old(self).input.held,
                        self.input.edge_locks == old(self).input.edge_locks,
                        self.collision_locks == old(self).collision_locks,
                        self.mouse_data == old(self).mouse_data,
                        self.trace == old(self).trace,
                        self.activations == old(self).activations,
                        self.active_scene.is_none(),
                        self.accumulator.units() == frame_rest(
                            old(self).accumulator.units(),
                            added as nat,
                        ),
                    decreases steps - done,
                {
                    scene.world.step(&mut self.physics_pipeline, 0, self.config.gravity_bits);
                    scene.world.refresh_queries(&mut self.query_pipeline);
                    done = done + 1;
                }
                self.active_scene = Some(scene);
                Ok(steps)
            },
        }
    }

    /// Accounts for `elapsed_millis` milliseconds of wall-clock time and
    /// advances the physics world of the active scene by every fixed step
    /// that is now due, refreshing the ray-cast structure after each step.
    /// Returns the number of steps taken. Without an active scene nothing is
    /// accounted for.
    pub fn step_physics(&mut self, elapsed_millis: u64) -> (outcome: Result<u64, EngineError>)
        requires
            old(self).wf(),
        ensures
            final(self).wf(),
            old(self).physics_stepped(
                *final(self),
                units_of_millis(elapsed_millis as nat),
                outcome,
            ),
    {
        self.step_core(3_000_000u128 * (elapsed_millis as u128))
    }

    /// As [`Engine::step_physics`], with the elapsed time in accumulator
    /// units (thirds of a nanosecond).
    pub fn step_physics_units(&mut self, elapsed_units: u64) -> (outcome: Result<u64, EngineError>)
        requires
            old(self).wf(),
        ensures
            final(self).wf(),
            old(self).physics_stepped(*final(self), elapsed_units as nat, outcome),
    {
        self.step_core(elapsed_units as u128)
    }

    /// Overwrites the position of every entity of the active scene that has
    /// a rigid body with the translation of that body. An entity whose body
    /// handle is not live keeps its position; the positions in the list of
    /// such entities are returned, in increasing order.
    pub fn sync_positions(&mut self) -> (outcome: Result<Vec<usize>, EngineError>)
        requires
            old(self).wf(),
        ensures
            final(self).wf(),
            old(self).positions_synced(*final(self), outcome),
    {
        let taken = self.active_scene.take();
        match taken {
            None => Err(EngineError::NoActiveScene),
            Some(scene) => {
                let mut scene = scene;
                let ghost before = scene;
                let mut stale: Vec<usize> = Vec::new();
                let count: usize = scene.game_objects.len();
                let mut i: usize = 0;
                while i < count
                    invariant
                        i <= count,
                        count == before.game_objects@.len(),
                        scene.game_objects@.len() == count,
                        scene == (Scene { game_objects: scene.game_objects, ..before }),
                        forall|k: int|
                            0 <= k < i ==> #[trigger] scene.game_objects@[k] == synced_object(
                                before.game_objects@[k],
                                before.world.bodies(),
                            ),
                        forall|k: int|
                            i <= k < count ==> #[trigger] scene.game_objects@[k]
                                == before.game_objects@[k],
                        forall|k: int|
                            0 <= k < i ==> (is_stale(#[trigger] before.game_objects@[k], before.world.bodies())
                                <==> stale@.contains(k as usize)),
                        forall|a: int| 0 <= a < stale@.len() ==> #[trigger] stale@[a] < i,
                        forall|a: int, b: int|
                            0 <= a < b < stale@.len() ==> #[trigger] stale@[a] < #[trigger] stale@[b],
                    decreases count - i,
                {
                    let ghost reported = stale@;
                    match scene.game_objects[i].physics.rigid_body_handle {
                        Some(handle) => {
                            match scene.world.translation_of(handle) {
                                Some(bits) => {
                                    scene.game_objects[i].pos_x_bits = bits.0;
                                    scene.game_objects[i].pos_y_bits = bits.1;
                                },
                                None => {
                                    stale.push(i);
                                },
                            }
                        },
                        None => {},
                    }
                    proof {
                        assert forall|k: int| 0 <= k < i + 1 implies (is_stale(
                            #[trigger] before.game_objects@[k],
                            before.world.bodies(),
                        ) <==> stale@.contains(k as usize)) by {
                            if stale@.len() > reported.len() {
                                assert(stale@ == reported.push(i));
                                assert(stale@[reported.len() as int] == i);
                                if k < i && reported.contains(k as usize) {
                                    let a = choose|a: int|
                                        0 <= a < reported.len() && reported[a] == k as usize;
                                    assert(stale@[a] == k as usize);
                                }
                            }
                            if stale@.contains(k as usize) && k < i {
                                let a = choose|a: int|
                                    0 <= a < stale@.len() && stale@[a] == k as usize;
                                assert(a < reported.len());
                                assert(reported[a] == k as usize);
                            }
                        }
                    }
                    i = i + 1;
                }
                self.active_scene = Some(scene);
                Ok(stale)
            },
        }
    }
}

/// What a copy of a scene has of the scene: the same entities by number,
/// position, handles, look and waiting messages, each behaviour copied; the
/// same data, callback names and user interface; a physics world that holds
/// the same.
pub open spec fn copied<B: UserBehaviour<C>, C>(registered: Scene<B>, copy: Scene<B>) -> bool {
    &&& copy.game_objects@.len() == registered.game_objects@.len()
    &&& forall|k: int|
        0 <= k < registered.game_objects@.len() ==> {
            &&& (#[trigger] copy.game_objects@[k]).id == registered.game_objects@[k].id
            &&& copy.game_objects@[k].graphics == registered.game_objects@[k].graphics
            &&& copy.game_objects@[k].pending() == registered.game_objects@[k].pending()
            &&& copy.game_objects@[k].physics == registered.game_objects@[k].physics
            &&& copy.game_objects@[k].pos_x_bits == registered.game_objects@[k].pos_x_bits
            &&& copy.game_objects@[k].pos_y_bits == registered.game_objects@[k].pos_y_bits
            &&& behaviours_copied(registered.game_objects@[k], copy.game_objects@[k])
        }
    &&& copy.data_map@ == registered.data_map@
    &&& copy.function_map@ == registered.function_map@
    &&& copy.ui_ast.is_some() == registered.ui_ast.is_some()
    &&& copy.ui_ast.is_some() ==> copy.ui_ast.unwrap()@ == registered.ui_ast.unwrap()@
    &&& copy.current_game_object_id == registered.current_game_object_id
    &&& copy.world.same_as(registered.world)
}

/// No entity of the scene has a behaviour.
pub open spec fn without_behaviours<B>(scene: Scene<B>) -> bool {
    forall|k: int|
        0 <= k < scene.game_objects@.len() ==> (#[trigger] scene.game_objects@[k]).behaviours@.len()
            == 0
}

/// Every behaviour of the entity had its `unloaded` hook called, with a
/// view that showed `keys` as the keys held.
pub open spec fn entity_unloaded<B: UserBehaviour<C>, C>(
    object: GameObject<B>,
    keys: Set<u64>,
) -> bool {
    forall|j: int|
        0 <= j < object.behaviours@.len() ==> unloaded_ran::<B, C>(
            #[trigger] object.behaviours@[j],
            keys,
        )
}

/// Every behaviour of the entity had its `loaded` hook called, with a view
/// that showed `keys` as the keys held.
pub open spec fn entity_loaded<B: UserBehaviour<C>, C>(object: GameObject<B>, keys: Set<u64>) -> bool {
    forall|j: int|
        0 <= j < object.behaviours@.len() ==> loaded_ran::<B, C>(
            #[trigger] object.behaviours@[j],
            keys,
        )
}

/// What the `loaded` hooks of the entities of `copy`, called in list order
/// while `keys` were held, left as the active scene: every behaviour had its
/// hook called; the entities have their numbers, looks, numbers of
/// behaviours and waiting messages; data, callback names and user interface
/// are untouched. What the hooks did to positions, physics handles and the
/// physics world is up to them: an entity without behaviours is as it was,
/// and in a scene without behaviours so is the physics world.
pub open spec fn loads_ran<B: UserBehaviour<C>, C>(
    copy: Scene<B>,
    active: Scene<B>,
    keys: Set<u64>,
) -> bool {
    &&& active.game_objects@.len() == copy.game_objects@.len()
    &&& forall|k: int|
        0 <= k < copy.game_objects@.len() ==> {
            &&& (#[trigger] active.game_objects@[k]).id == copy.game_objects@[k].id
            &&& active.game_objects@[k].graphics == copy.game_objects@[k].graphics
            &&& active.game_objects@[k].behaviours@.len() == copy.game_objects@[k].behaviours@.len()
            &&& active.game_objects@[k].inbox == copy.game_objects@[k].inbox
            &&& entity_loaded::<B, C>(copy.game_objects@[k], keys)
            &&& copy.game_objects@[k].behaviours@.len() == 0 ==> active.game_objects@[k]
                == copy.game_objects@[k]
        }
    &&& active.data_map == copy.data_map
    &&& active.function_map == copy.function_map
    &&& active.ui_ast == copy.ui_ast
    &&& active.current_game_object_id == copy.current_game_object_id
    &&& without_behaviours(copy) ==> active.world == copy.world
}

/// The active scene right after a switch, against the scene it was made
/// from: a deep copy of the registered scene was made, as [`copied`] says,
/// and the `loaded` hooks of its entities were then called on that copy, as
/// [`loads_ran`] says.
pub open spec fn loaded<B: UserBehaviour<C>, C>(
    registered: Scene<B>,
    active: Scene<B>,
    keys: Set<u64>,
) -> bool {
    exists|copy: Scene<B>| #[trigger]
        copied::<B, C>(registered, copy) && loads_ran::<B, C>(copy, active, keys)
}

/// An entity after one tick while `keys` were held: the oldest waiting
/// message is gone from its inbox, and every behaviour was run, with that
/// message if there was one; its number, its look and the number of its
/// behaviours are as before. Position and physics handles are up to its
/// behaviours: without behaviours they are as before.
pub open spec fn ticked_object<B: UserBehaviour<C>, C>(
    before: GameObject<B>,
    after: GameObject<B>,
    keys: Set<u64>,
) -> bool {
    &&& after.id == before.id
    &&& after.graphics == before.graphics
    &&& after.behaviours@.len() == before.behaviours@.len()
    &&& after.pending() == if before.pending().len() > 0 {
        before.pending().drop_first()
    } else {
        before.pending()
    }
    &&& forall|j: int|
        0 <= j < before.behaviours@.len() ==> behaviour_ticked::<B, C>(
            #[trigger] before.behaviours@[j],
            oldest(before.inbox@),
            keys,
        )
    &&& before.behaviours@.len() == 0 ==> {
        &&& after.behaviours == before.behaviours
        &&& after.physics == before.physics
        &&& after.pos_x_bits == before.pos_x_bits
        &&& after.pos_y_bits == before.pos_y_bits
    }
}

/// A scene after one tick while `keys` were held: every entity ticked;
/// data, callback names and user interface as before. The physics world is
/// up to the behaviours: without behaviours it is as before.
pub open spec fn ticked<B: UserBehaviour<C>, C>(
    before: Scene<B>,
    after: Scene<B>,
    keys: Set<u64>,
) -> bool {
    &&& after.game_objects@.len() == before.game_objects@.len()
    &&& forall|k: int|
        0 <= k < before.game_objects@.len() ==> ticked_object::<B, C>(
            before.game_objects@[k],
            #[trigger] after.game_objects@[k],
            keys,
        )
    &&& after.data_map == before.data_map
    &&& after.function_map == before.function_map
    &&& after.ui_ast == before.ui_ast
    &&& after.current_game_object_id == before.current_game_object_id
    &&& without_behaviours(before) ==> after.world == before.world
}

/// A scene after `steps` physics steps: the world was advanced by exactly
/// that many steps; every handle is still live, and every collider has its
/// parent and its user data; entities, data, callback names and user
/// interface are as before.
pub open spec fn stepped<B>(before: Scene<B>, after: Scene<B>, steps: nat) -> bool {
    &&& after.game_objects == before.game_objects
    &&& after.data_map == before.data_map
    &&& after.function_map == before.function_map
    &&& after.ui_ast == before.ui_ast
    &&& after.current_game_object_id == before.current_game_object_id
    &&& after.world.steps_taken() == before.world.steps_taken() + steps
    &&& body_positions(after.world.bodies()).dom() == body_positions(before.world.bodies()).dom()
    &&& collider_parents(after.world.colliders()) == collider_parents(before.world.colliders())
    &&& collider_tags(after.world.colliders()) == collider_tags(before.world.colliders())
}

/// Whether the entity has a rigid-body handle that is not live in `bodies`.
pub open spec fn is_stale<B>(object: GameObject<B>, bodies: rapier2d::dynamics::RigidBodySet) -> bool {
    match object.physics.rigid_body_handle {
        Some(handle) => !body_positions(bodies).contains_key(handle.parts()),
        None => false,
    }
}

/// The entity with its position taken from its rigid body, where it has a
/// live one.
pub open spec fn synced_object<B>(
    object: GameObject<B>,
    bodies: rapier2d::dynamics::RigidBodySet,
) -> GameObject<B> {
    match object.physics.rigid_body_handle {
        Some(handle) => if body_positions(bodies).contains_key(handle.parts()) {
            GameObject {
                pos_x_bits: body_positions(bodies)[handle.parts()].0,
                pos_y_bits: body_positions(bodies)[handle.parts()].1,
                ..object
            }
        } else {
            object
        },
        None => object,
    }
}

/// The scene after its positions were synchronised: every entity synced,
/// nothing else touched.
pub open spec fn synced<B>(before: Scene<B>, after: Scene<B>) -> bool {
    &&& after == (Scene { game_objects: after.game_objects, ..before })
    &&& after.game_objects@.len() == before.game_objects@.len()
    &&& forall|k: int|
        0 <= k < before.game_objects@.len() ==> #[trigger] after.game_objects@[k] == synced_object(
            before.game_objects@[k],
            before.world.bodies(),
        )
}

/// The report names exactly the entities with a stale body handle, by their
/// position in the list, in increasing order.
pub open spec fn stale_report<B>(before: Scene<B>, report: Seq<usize>) -> bool {
    &&& forall|k: int|
        0 <= k < before.game_objects@.len() ==> (is_stale(
            #[trigger] before.game_objects@[k],
            before.world.bodies(),
        ) <==> report.contains(k as usize))
    &&& forall|a: int| 0 <= a < report.len() ==> #[trigger] report[a] < before.game_objects@.len()
    &&& forall|a: int, b: int|
        0 <= a < b < report.len() ==> #[trigger] report[a] < #[trigger] report[b]
}

impl<B: UserBehaviour<C>, C: PullCallback<B>> Engine<B, C> {
    /// Applies one event to the engine and its active scene. A sound to play
    /// is handed back for the host to play.
    pub fn apply_event(&mut self, event: EngineEvent<C>) -> (outcome: Result<
        Option<AudioSource>,
        EngineError,
    >)
        requires
            old(self).wf(),
        ensures
            final(self).wf(),
            old(self).applied(*final(self), event, outcome),
    {
        match event {
            EngineEvent::SwitchToScene(name) => {
                match self.set_current_scene(name) {
                    Ok(()) => Ok(None),
                    Err(e) => Err(e),
                }
            },
            EngineEvent::PlaySound(source) => Ok(Some(source)),
            EngineEvent::SetDatamapValue(pair) => {
                let taken = self.active_scene.take();
                match taken {
                    None => Err(EngineError::NoActiveScene),
                    Some(scene) => {
                        let mut scene = scene;
                        let known = scene.data_map.contains_key(pair.0.as_str());
                        if known {
                            scene.data_map.insert(pair.0, pair.1);
                        }
                        self.active_scene = Some(scene);
                        if known {
                            Ok(None)
                        } else {
                            Err(EngineError::MissingDataKey)
                        }
                    },
                }
            },
            EngineEvent::InsertDatamapValue(pair) => {
                let taken = self.active_scene.take();
                match taken {
                    None => Err(EngineError::NoActiveScene),
                    Some(scene) => {
                        let mut scene = scene;
                        scene.data_map.insert(pair.0, pair.1);
                        self.active_scene = Some(scene);
                        Ok(None)
                    },
                }
            },
            EngineEvent::RemoveDatamapValue(key) => {
                let taken = self.active_scene.take();
                match taken {
                    None => Err(EngineError::NoActiveScene),
                    Some(scene) => {
                        let mut scene = scene;
                        scene.data_map.remove(key.as_str());
                        self.active_scene = Some(scene);
                        Ok(None)
                    },
                }
            },
            EngineEvent::UserEvent(bytes) => {
                let taken = self.active_scene.take();
                match taken {
                    None => Err(EngineError::NoActiveScene),
                    Some(scene) => {
                        let mut scene = scene;
                        let ghost before = scene;
                        let count: usize = scene.game_objects.len();
                        let mut i: usize = 0;
                        while i < count
                            invariant
                                i <= count,
                                count == before.game_objects@.len(),
                                scene.game_objects@.len() == count,
                                scene == (Scene { game_objects: scene.game_objects, ..before }),
                                forall|k: int|
                                    0 <= k < i ==> notified(
                                        before.game_objects@[k],
                                        #[trigger] scene.game_objects@[k],
                                        bytes@,
                                    ),
                                forall|k: int|
                                    i <= k < count ==> #[trigger] scene.game_objects@[k]
                                        == before.game_objects@[k],
                            decreases count - i,
                        {
                            scene.game_objects[i].notify_internal(bytes.clone());
                            i = i + 1;
                        }
                        self.active_scene = Some(scene);
                        Ok(None)
                    },
                }
            },
            EngineEvent::PullGameObject(request) => {
                let taken = self.active_scene.take();
                match taken {
                    None => Err(EngineError::NoActiveScene),
                    Some(scene) => {
                        let mut scene = scene;
                        let found: Option<usize> = match scene.world.tag_of(
                            request.collider_handle,
                        ) {
                            Some(tag) => {
                                if tag < scene.game_objects.len() as u128 {
                                    Some(tag as usize)
                                } else {
                                    None
                                }
                            },
                            None => None,
                        };
                        let ghost asked = scene;
                        let result = match found {
                            Some(index) => {
                                request.callback.call(
                                    EngineView {
                                        world: &mut scene.world,
                                        query_pipeline: &mut self.query_pipeline,
                                        event_tx: &self.event_tx,
                                        key_locks: &mut self.input.edge_locks,
                                        collision_locks: &mut self.collision_locks,
                                        keys_pressed: &self.input.held,
                                        frame_delta_millis: self.last_delta_millis,
                                    },
                                    &scene.game_objects[index],
                                );
                                assert(answered(
                                    asked,
                                    request.callback,
                                    index as int,
                                    old(self).input.held@,
                                ));
                                Ok(None)
                            },
                            None => Err(EngineError::MissingHandle),
                        };
                        self.active_scene = Some(scene);
                        result
                    },
                }
            },
        }
    }
}

/// The entity that a pull request for `handle` is answered with: the one
/// whose number is the user data of the collider, if the collider is live
/// and the number is within the list.
pub open spec fn pulled_entity<B>(scene: Scene<B>, handle: crate::physics::ColliderHandle) -> Option<
    int,
> {
    if collider_tags(scene.world.colliders()).contains_key(handle.parts()) && collider_tags(
        scene.world.colliders(),
    )[handle.parts()] < scene.game_objects@.len() {
        Some(collider_tags(scene.world.colliders())[handle.parts()] as int)
    } else {
        None
    }
}

/// The callback of a pull request was called with entity number `index` of
/// `scene` and with a view that showed the physics world of that scene and
/// `keys` as the keys held.
pub open spec fn answered<B, C: PullCallback<B>>(
    scene: Scene<B>,
    callback: C,
    index: int,
    keys: Set<u64>,
) -> bool {
    exists|view: EngineView<C>|
        view.physics() == scene.world && view.held_keys() == keys && #[trigger] call_ensures(
            C::call,
            (&callback, view, &scene.game_objects@[index]),
            (),
        )
}

/// The entity after one more message was put into its inbox.
pub open spec fn notified<B>(before: GameObject<B>, after: GameObject<B>, bytes: Seq<u8>) -> bool {
    &&& after.pending() == before.pending().push(bytes)
    &&& after.id == before.id
    &&& after.physics == before.physics
    &&& after.behaviours == before.behaviours
    &&& after.graphics == before.graphics
    &&& after.pos_x_bits == before.pos_x_bits
    &&& after.pos_y_bits == before.pos_y_bits
}

/// The scene after a message was broadcast: in the inbox of every entity,
/// behind what was waiting there, and nothing else changed.
pub open spec fn broadcast_delivered<B>(before: Scene<B>, after: Scene<B>, bytes: Seq<u8>) -> bool {
    &&& after == (Scene { game_objects: after.game_objects, ..before })
    &&& after.game_objects@.len() == before.game_objects@.len()
    &&& forall|k: int|
        0 <= k < before.game_objects@.len() ==> notified(
            before.game_objects@[k],
            #[trigger] after.game_objects@[k],
            bytes,
        )
}

impl<B: UserBehaviour<C>, C: PullCallback<B>> Engine<B, C> {
    /// Applies `events` one after the other, oldest first, each to the
    /// scene that is active at that moment, so that a switch of scene takes
    /// effect for the events behind it. An event that fails is passed over
    /// and its error reported. Without a switch among them, the events leave
    /// the data map of the active scene as `data_after_all` says.
    pub fn apply_events(&mut self, events: Vec<EngineEvent<C>>) -> (report: DrainReport)
        requires
            old(self).wf(),
        ensures
            final(self).wf(),
            exists|
                states: Seq<Self>,
                results: Seq<Result<Option<AudioSource>, EngineError>>,
            |
                old(self).drained(*final(self), events@, states, results, report),
            !report.channel_closed,
            final(self).registry() == old(self).registry(),
            final(self).held_keys() == old(self).held_keys(),
            final(self).pending_units() == old(self).pending_units(),
            final(self).mouse() == old(self).mouse(),
            old(self).trace().is_prefix_of(final(self).trace()),
            final(self).activation() >= old(self).activation(),
            old(self).active().is_some() ==> {
                &&& final(self).active().is_some()
                &&& !report.failures@.contains(EngineError::NoActiveScene)
            },
            old(self).active().is_some() && (forall|i: int|
                0 <= i < events@.len() ==> !((#[trigger] events@[i])@ is SwitchToScene))
                ==> final(self).data() == data_after_all(
                old(self).data(),
                Self::views_of(events@),
            ),
    {
        let mut rest = events;
        let mut sounds: Vec<AudioSource> = Vec::new();
        let mut failures: Vec<EngineError> = Vec::new();
        let ghost mut states: Seq<Self> = seq![*self];
        let ghost mut results: Seq<Result<Option<AudioSource>, EngineError>> = Seq::empty();
        let ghost mut done: int = 0;
        proof {
            assert(events@.take(0) =~= Seq::<EngineEvent<C>>::empty());
            assert(Self::views_of(events@.take(0)) =~= Seq::<EventModel<C>>::empty());
        }
        while rest.len() > 0
            invariant
                self.wf(),
                0 <= done <= events@.len(),
                rest@ == events@.skip(done),
                self.registry() == old(self).registry(),
                self.held_keys() == old(self).held_keys(),
                self.pending_units() == old(self).pending_units(),
                self.mouse() == old(self).mouse(),
                old(self).trace().is_prefix_of(self.trace()),
                self.activation() >= old(self).activation(),
                old(self).chained(*self, events@.take(done), states, results),
                sounds@ == Self::sounds_of(results),
                failures@ == Self::failures_of(results),
                old(self).active().is_some() ==> {
                    &&& self.active().is_some()
                    &&& !failures@.contains(EngineError::NoActiveScene)
                },
                old(self).active().is_some() && (forall|i: int|
                    0 <= i < events@.len() ==> !((#[trigger] events@[i])@ is SwitchToScene))
                    ==> self.data() == data_after_all(
                    old(self).data(),
                    Self::views_of(events@.take(done)),
                ),
            decreases rest@.len(),
        {
            let ghost before_results = results;
            let ghost before_failures = failures@;
            let ghost before = *self;
            let event = rest.remove(0);
            let ghost taken_event = event;
            let result = self.apply_event(event);
            proof {
                assert(taken_event == events@[done]);
                let longer = events@.take(done + 1);
                assert(longer.drop_last() =~= events@.take(done));
                assert(longer.last() == taken_event);
                assert(events@.skip(done).remove(0) =~= events@.skip(done + 1));
                let views = Self::views_of(longer);
                assert(views.drop_last() =~= Self::views_of(events@.take(done)));
                assert(views.last() == taken_event@);
                states = states.push(*self);
                results = results.push(result);
                assert(results.drop_last() =~= before_results);
                done = done + 1;
            }
            match result {
                Ok(Some(source)) => {
                    sounds.push(source);
                },
                Ok(None) => {},
                Err(e) => {
                    failures.push(e);
                    proof {
                        assert(failures@.drop_last() =~= before_failures);
                        if old(self).active().is_some() {
                            assert(e != EngineError::NoActiveScene);
                            assert forall|k: int| 0 <= k < failures@.len() implies failures@[k]
                                != EngineError::NoActiveScene by {
                                if k < before_failures.len() {
                                    assert(before_failures[k] == failures@[k]);
                                    assert(before_failures.contains(failures@[k]));
                                }
                            }
                        }
                    }
                },
            }
        }
        proof {
            assert(events@.take(done) =~= events@);
            assert(old(self).drained(
                *self,
                events@,
                states,
                results,
                (DrainReport { sounds, failures, channel_closed: false }),
            ));
        }
        DrainReport { sounds, failures, channel_closed: false }
    }

    /// Drains the event queue: takes the events that were queued when the
    /// drain began off the queue, oldest first, and applies them as
    /// [`Engine::apply_events`] does. Events queued during the drain wait
    /// for the next one.
    pub fn handle_events(&mut self) -> (report: DrainReport)
        requires
            old(self).wf(),
        ensures
            final(self).wf(),
            exists|
                events: Seq<EngineEvent<C>>,
                states: Seq<Self>,
                results: Seq<Result<Option<AudioSource>, EngineError>>,
            |
                old(self).drained(*final(self), events, states, results, report),
            final(self).registry() == old(self).registry(),
            final(self).held_keys() == old(self).held_keys(),
            final(self).pending_units() == old(self).pending_units(),
            final(self).mouse() == old(self).mouse(),
            old(self).trace().is_prefix_of(final(self).trace()),
            final(self).activation() >= old(self).activation(),
            old(self).active().is_some() ==> {
                &&& final(self).active().is_some()
                &&& !report.failures@.contains(EngineError::NoActiveScene)
            },
    {
        let queued: usize = self.event_rx.len();
        let mut collected: Vec<EngineEvent<C>> = Vec::new();
        let mut closed: bool = false;
        let mut taken: usize = 0;
        while taken < queued
            invariant
                *self == *old(self),
            decreases queued - taken,
        {
            match self.event_rx.try_recv() {
                Ok(Some(event)) => {
                    collected.push(event);
                },
                Ok(None) => {
                    break;
                },
                Err(_) => {
                    closed = true;
                    break;
                },
            }
            taken = taken + 1;
        }
        let ghost events = collected@;
        let applied = self.apply_events(collected);
        let report = DrainReport {
            sounds: applied.sounds,
            failures: applied.failures,
            channel_closed: closed,
        };
        proof {
            let (states, results) = choose|
                states: Seq<Self>,
                results: Seq<Result<Option<AudioSource>, EngineError>>,
            |
                old(self).drained(*self, events, states, results, applied);
            assert(old(self).drained(*self, events, states, results, report));
        }
        report
    }

    /// One frame in which `added` units of time are accounted for.
    fn frame_core(&mut self, added: u128, delta_millis: u64) -> (outcome: Result<
        FrameReport,
        EngineError,
    >)
        requires
            old(self).wf(),
            added <= UNITS_PER_MILLI * u64::MAX,
        ensures
            final(self).wf(),
            old(self).framed(*final(self), added as nat, outcome),
    {
        self.last_delta_millis = delta_millis;
        let steps: u64 = match self.step_core(added) {
            Ok(steps) => steps,
            Err(e) => {
                return Err(e);
            },
        };
        let ghost a = *self;
        match self.tick() {
            Ok(()) => {},
            Err(e) => {
                return Err(e);
            },
        }
        let ghost b = *self;
        let stale_entities: Vec<usize> = match self.sync_positions() {
            Ok(stale) => stale,
            Err(e) => {
                return Err(e);
            },
        };
        let ghost c = *self;
        let drain = self.handle_events();
        let report = FrameReport {
            steps,
            stale_entities,
            sounds: drain.sounds,
            failures: drain.failures,
            channel_closed: drain.channel_closed,
        };
        proof {
            let (events, states, results) = choose|
                events: Seq<EngineEvent<C>>,
                states: Seq<Self>,
                results: Seq<Result<Option<AudioSource>, EngineError>>,
            |
                c.drained(*self, events, states, results, drain);
            assert(old(self).frame_chain(
                *self,
                added as nat,
                report,
                a,
                b,
                c,
                events,
                states,
                results,
            ));
            assert(old(self).frame_done(*self, added as nat, report));
        }
        Ok(report)
    }

    /// One frame. Accounts for the elapsed milliseconds and steps the
    /// physics; ticks every entity of the active scene; synchronises the
    /// positions of the entities with their bodies; drains the event queue.
    /// Without an active scene the frame fails before anything is done.
    pub fn frame(&mut self, elapsed_millis: u64) -> (outcome: Result<FrameReport, EngineError>)
        requires
            old(self).wf(),
        ensures
            final(self).wf(),
            old(self).framed(*final(self), units_of_millis(elapsed_millis as nat), outcome),
    {
        self.frame_core(3_000_000u128 * (elapsed_millis as u128), elapsed_millis)
    }

    /// As [`Engine::frame`], with the elapsed time in nanoseconds.
    pub fn frame_nanos(&mut self, elapsed_nanos: u64) -> (outcome: Result<FrameReport, EngineError>)
        requires
            old(self).wf(),
        ensures
            final(self).wf(),
            old(self).framed(*final(self), units_of_nanos(elapsed_nanos as nat), outcome),
    {
        self.frame_core(3u128 * (elapsed_nanos as u128), elapsed_nanos / 1_000_000)
    }

    /// As [`Engine::frame`], with the elapsed time in accumulator units
    /// (thirds of a nanosecond), so that no part of the time is lost.
    pub fn frame_units(&mut self, elapsed_units: u64) -> (outcome: Result<FrameReport, EngineError>)
        requires
            old(self).wf(),
        ensures
            final(self).wf(),
            old(self).framed(*final(self), elapsed_units as nat, outcome),
    {
        self.frame_core(elapsed_units as u128, elapsed_units / 3_000_000)
    }
}

impl<B, C> Engine<B, C> {
    /// Runs `callback` with a view of the active scene, the way a behaviour
    /// is run: the view shows the physics world of the scene, the held keys
    /// and the latches as they are at the call. This is how the host invokes
    /// the callbacks of the user interface. Without an active scene the
    /// callback is not run and nothing changes.
    pub fn with_engine_view<F: FnOnce(EngineView<C>)>(&mut self, callback: F) -> (outcome: Result<
        (),
        EngineError,
    >)
        requires
            old(self).wf(),
            forall|view: EngineView<C>| callback.requires((view,)),
        ensures
            final(self).wf(),
            outcome == if old(self).active().is_some() {
                Ok::<(), EngineError>(())
            } else {
                Err::<(), EngineError>(EngineError::NoActiveScene)
            },
            final(self).registry() == old(self).registry(),
            final(self).trace() == old(self).trace(),
            final(self).activation() == old(self).activation(),
            final(self).held_keys() == old(self).held_keys(),
            final(self).pending_units() == old(self).pending_units(),
            final(self).mouse() == old(self).mouse(),
            final(self).active().is_some() == old(self).active().is_some(),
            final(self).data() == old(self).data(),
            old(self).active().is_some() ==> final(self).active().unwrap().game_objects == old(
                self,
            ).active().unwrap().game_objects,
            old(self).active().is_some() ==> exists|view: EngineView<C>|
                {
                    &&& view.physics() == old(self).active().unwrap().world
                    &&& view.held_keys() == old(self).held_keys()
                    &&& view.key_locks() == old(self).key_locks()
                    &&& view.collision_locks() == old(self).collision_locks()
                    &&& #[trigger] callback.ensures((view,), ())
                },
            old(self).active().is_none() ==> {
                &&& final(self).key_locks() == old(self).key_locks()
                &&& final(self).collision_locks() == old(self).collision_locks()
            },
    {
        let taken = self.active_scene.take();
        match taken {
            None => Err(EngineError::NoActiveScene),
            Some(scene) => {
                let mut scene = scene;
                callback(
                    EngineView {
                        world: &mut scene.world,
                        query_pipeline: &mut self.query_pipeline,
                        event_tx: &self.event_tx,
                        key_locks: &mut self.input.edge_locks,
                        collision_locks: &mut self.collision_locks,
                        keys_pressed: &self.input.held,
                        frame_delta_millis: self.last_delta_millis,
                    },
                );
                self.active_scene = Some(scene);
                Ok(())
            },
        }
    }
}

} // verus!
