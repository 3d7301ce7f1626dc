use std::cell::RefCell;
use std::rc::Rc;

use alcubierre::audio::basic::AudioSourceBuilder;
use alcubierre::audio::basic::HALF_BITS;
use alcubierre::audio::basic::ONE_BITS;
use alcubierre::engine::Engine;
use alcubierre::engine::EngineConfig;
use alcubierre::engine::MouseButton;
use alcubierre::events::EngineError;
use alcubierre::events::EngineEvent;
use alcubierre::events::send_outcome;
use alcubierre::events::PullCallback;
use alcubierre::events::PullGameObjectRequest;
use alcubierre::game_object::behaviours::EngineView;
use alcubierre::game_object::behaviours::UserBehaviour;
use alcubierre::game_object::behaviours::UserBehaviourClone;
use alcubierre::game_object::graphics::CircleData;
use alcubierre::game_object::graphics::GraphicsType;
use alcubierre::game_object::graphics::SpriteData;
use alcubierre::game_object::GameObject;
use alcubierre::game_object::GameObjectBuilder;
use alcubierre::game_object::GameObjectIPC;
use alcubierre::game_object::GameObjectView;
use alcubierre::physics::ColliderHandle;
use alcubierre::physics::RigidBodyHandle;
use alcubierre::ui::frontend::RGBColor;
use rapier2d::prelude::ColliderBuilder;
use rapier2d::prelude::RigidBodyBuilder;

type Log = Rc<RefCell<Vec<String>>>;

/// What a test behaviour does on each tick.
#[derive(Clone)]
enum Script {
    /// Writes down every hook that is called.
    Record,
    /// Asks whether a key was just pressed and writes down the answer.
    WatchKey(u32),
    /// Moves the body of its entity along a list of x coordinates, one per
    /// tick.
    Move(Vec<f32>),
    /// Asks the edge-triggered sensor query about two colliders.
    WatchSensor,
    /// Asks the edge-triggered contact query about two colliders.
    WatchContact,
    /// Sends two values for the same key.
    SetScoreTwice,
    /// Removes the body of its entity from the world on the first tick.
    DropBody,
    /// Asks for a switch to another scene on the first tick.
    Leave(String),
}

#[derive(Clone)]
struct Probe {
    name: String,
    script: Script,
    log: Log,
    pair: Rc<RefCell<Option<(ColliderHandle, ColliderHandle)>>>,
    ticks: usize,
}

impl Probe {
    fn new(name: &str, script: Script, log: &Log) -> Probe {
        Probe {
            name: name.to_string(),
            script,
            log: log.clone(),
            pair: Rc::new(RefCell::new(None)),
            ticks: 0,
        }
    }

    fn write(&self, what: &str) {
        self.log.borrow_mut().push(format!("{}:{}", self.name, what));
    }
}

fn raw_body(handle: RigidBodyHandle) -> rapier2d::prelude::RigidBodyHandle {
    rapier2d::prelude::RigidBodyHandle::from_raw_parts(handle.index, handle.generation)
}

#[derive(Clone)]
struct Reply {
    log: Log,
}

impl PullCallback<Probe> for Reply {
    fn call(&self, _engine_view: EngineView<Self>, game_object: &GameObject<Probe>) {
        self.log.borrow_mut().push(format!("pulled:{}", game_object.id));
    }
}

impl UserBehaviourClone for Probe {
    fn clone_box(&self) -> Self {
        self.clone()
    }
}

impl UserBehaviour<Reply> for Probe {
    fn game_loop(&mut self, game_object_view: GameObjectView, mut engine_view: EngineView<Reply>) {
        let tick = self.ticks;
        self.ticks += 1;
        match &self.script {
            Script::Record => self.write("tick"),
            Script::WatchKey(key) => {
                let pressed = engine_view.is_key_pressed(*key);
                self.write(if pressed { "pressed" } else { "-" });
            }
            Script::Move(path) => {
                let x = path[tick.min(path.len() - 1)];
                let handle = game_object_view.physics.rigid_body_handle.unwrap();
                let moved = engine_view.set_translation(handle, x.to_bits(), 0.0f32.to_bits());
                assert_eq!(moved, Ok(()));
            }
            Script::WatchSensor => {
                let (a, b) = self.pair.borrow().unwrap();
                let level = engine_view.is_colliding_with_sensor(a, b).is_some();
                let edge = engine_view.is_colliding_with_sensor_once(a, b);
                assert!(edge.is_none() || edge == Some(b));
                self.write(match (level, edge.is_some()) {
                    (true, true) => "begin",
                    (true, false) => "overlap",
                    (false, false) => "apart",
                    (false, true) => "impossible",
                });
            }
            Script::WatchContact => {
                let (a, b) = self.pair.borrow().unwrap();
                let level = engine_view.is_colliding(a, b).is_some();
                let edge = engine_view.is_colliding_once(a, b);
                assert!(edge.is_none() || edge == Some(b));
                self.write(match (level, edge.is_some()) {
                    (true, true) => "begin",
                    (true, false) => "touch",
                    (false, false) => "apart",
                    (false, true) => "impossible",
                });
            }
            Script::SetScoreTwice => {
                if tick == 0 {
                    let first = engine_view.set_datamap_value("score".to_string(), "1".to_string());
                    let second = engine_view.set_datamap_value("score".to_string(), "2".to_string());
                    assert!(matches!(first, Ok(None)));
                    assert!(matches!(second, Ok(None)));
                }
            }
            Script::DropBody => {
                if tick == 0 {
                    let handle = game_object_view.physics.rigid_body_handle.unwrap();
                    assert_eq!(engine_view.remove_body(handle), Ok(()));
                    assert_eq!(engine_view.remove_body(handle), Err(EngineError::MissingHandle));
                }
            }
            Script::Leave(target) => {
                self.write("tick");
                if tick == 0 {
                    let sent = engine_view.load_scene(target.clone());
                    assert!(matches!(sent, Ok(None)));
                }
            }
        }
    }

    fn unloaded(&mut self, _engine_view: EngineView<Reply>, _game_object_view: GameObjectView) {
        self.write("unload");
    }

    fn loaded(&mut self, _engine_view: EngineView<Reply>, _game_object_view: GameObjectView) {
        self.write("load");
    }

    fn received_event(
        &mut self,
        event: &GameObjectIPC,
        _engine_view: EngineView<Reply>,
        _game_object_view: GameObjectView,
    ) {
        match event {
            GameObjectIPC::UserEvent(bytes) => self.write(&format!("event{:?}", bytes)),
        }
    }
}

fn config() -> EngineConfig {
    EngineConfig { gravity_bits: 0.0f32.to_bits(), clear_color: RGBColor { red: 1, green: 2, blue: 3 } }
}

fn new_engine() -> Engine<Probe, Reply> {
    Engine::new(800, 600, config())
}

fn log() -> Log {
    Rc::new(RefCell::new(Vec::new()))
}

fn entries(log: &Log) -> Vec<String> {
    log.borrow().clone()
}

#[test]
fn new_engine_has_no_scene_and_keeps_its_settings() {
    let mut engine = new_engine();
    assert!(engine.active_scene().is_none());
    assert!(engine.scene("main").is_none());
    assert_eq!(engine.config(), config());
    assert_eq!(engine.frame(16).err(), Some(EngineError::NoActiveScene));
    assert_eq!(engine.tick(), Err(EngineError::NoActiveScene));
    assert_eq!(engine.step_physics(100), Err(EngineError::NoActiveScene));
    assert_eq!(engine.sync_positions().err(), Some(EngineError::NoActiveScene));
}

#[test]
fn switching_to_an_unregistered_scene_is_refused() {
    let mut engine = new_engine();
    engine.register_scene("main".to_string());
    assert_eq!(engine.set_current_scene("other".to_string()), Err(EngineError::MissingScene));
    assert!(engine.active_scene().is_none());
    assert_eq!(engine.set_current_scene("main".to_string()), Ok(()));
    assert!(engine.active_scene().is_some());
    assert_eq!(engine.set_current_scene("other".to_string()), Err(EngineError::MissingScene));
    assert!(engine.active_scene().is_some());
}

#[test]
fn registering_a_scene_again_replaces_it() {
    let mut engine = new_engine();
    let record = log();
    let scene = engine.register_scene("main".to_string());
    scene.register_game_object(
        GameObjectBuilder::new().behaviour(Probe::new("a", Script::Record, &record)),
    );
    assert_eq!(engine.scene("main").unwrap().game_objects.len(), 1);
    engine.register_scene("other".to_string());
    engine.register_scene("main".to_string());
    assert_eq!(engine.scene("main").unwrap().game_objects.len(), 0);
    assert_eq!(engine.scene("other").unwrap().game_objects.len(), 0);
}

#[test]
fn entities_are_numbered_in_order_of_registration() {
    let mut engine = new_engine();
    let scene = engine.register_scene("main".to_string());
    let first = scene.register_game_object(GameObjectBuilder::new().position(7, 9)).id;
    let second = scene.register_game_object(GameObjectBuilder::new()).id;
    let third = scene.register_game_object(GameObjectBuilder::new()).id;
    assert_eq!((first, second, third), (0, 1, 2));
    assert_eq!(scene.current_game_object_id, 3);
    assert_eq!(scene.game_objects[0].pos_x_bits, 7);
    assert_eq!(scene.game_objects[0].pos_y_bits, 9);
    assert_eq!(scene.game_objects[0].physics.collider_handle, None);
    assert_eq!(scene.game_objects[0].physics.rigid_body_handle, None);
}

#[test]
fn registered_collider_hangs_on_registered_body() {
    let mut engine = new_engine();
    let scene = engine.register_scene("main".to_string());
    let free = scene
        .register_game_object(GameObjectBuilder::new().collider(ColliderBuilder::ball(1.0).build()))
        .physics;
    let bare = scene
        .register_game_object(GameObjectBuilder::new().rigid_body(RigidBodyBuilder::dynamic().build()))
        .physics;
    let full = scene
        .register_game_object(
            GameObjectBuilder::new()
                .rigid_body(RigidBodyBuilder::dynamic().build())
                .collider(ColliderBuilder::ball(1.0).build()),
        )
        .physics;
    assert!(free.rigid_body_handle.is_none());
    assert!(bare.collider_handle.is_none());
    assert!(bare.rigid_body_handle.is_some());
    assert_ne!(bare.rigid_body_handle, full.rigid_body_handle);
    assert_ne!(free.collider_handle, full.collider_handle);
    assert_eq!(scene.parent_of(free.collider_handle.unwrap()), Ok(None));
    assert_eq!(scene.parent_of(full.collider_handle.unwrap()), Ok(full.rigid_body_handle));
    let stale = ColliderHandle { index: 77, generation: 0 };
    assert_eq!(scene.parent_of(stale), Err(EngineError::MissingHandle));
    let raw = rapier2d::prelude::ColliderHandle::from_raw_parts(
        full.collider_handle.unwrap().index,
        full.collider_handle.unwrap().generation,
    );
    assert_eq!(scene.world.collider_set().get(raw).unwrap().user_data, 2);
    assert_eq!(
        scene.world.collider_set().get(raw).unwrap().parent(),
        Some(raw_body(full.rigid_body_handle.unwrap()))
    );
}

#[test]
fn scene_switch_is_atomic_for_behaviours() {
    let record = log();
    let mut engine = new_engine();
    let first = engine.register_scene("first".to_string());
    first.register_game_object(
        GameObjectBuilder::new().behaviour(Probe::new("a", Script::Record, &record)),
    );
    first.register_game_object(
        GameObjectBuilder::new().behaviour(Probe::new("b", Script::Record, &record)),
    );
    let second = engine.register_scene("second".to_string());
    second.register_game_object(
        GameObjectBuilder::new().behaviour(Probe::new("c", Script::Record, &record)),
    );
    assert_eq!(engine.set_current_scene("first".to_string()), Ok(()));
    assert_eq!(engine.tick(), Ok(()));
    assert_eq!(engine.set_current_scene("second".to_string()), Ok(()));
    assert_eq!(engine.tick(), Ok(()));
    assert_eq!(engine.tick(), Ok(()));
    assert_eq!(
        entries(&record),
        vec![
            "a:load", "b:load", "a:tick", "b:tick", "a:unload", "b:unload", "c:load", "c:tick",
            "c:tick"
        ]
    );
}

#[test]
fn switch_requested_by_a_behaviour_happens_at_the_drain() {
    let record = log();
    let mut engine = new_engine();
    let first = engine.register_scene("first".to_string());
    first.register_game_object(
        GameObjectBuilder::new()
            .behaviour(Probe::new("a", Script::Leave("second".to_string()), &record)),
    );
    first.register_game_object(
        GameObjectBuilder::new().behaviour(Probe::new("b", Script::Record, &record)),
    );
    let second = engine.register_scene("second".to_string());
    second.register_game_object(
        GameObjectBuilder::new().behaviour(Probe::new("c", Script::Record, &record)),
    );
    assert_eq!(engine.set_current_scene("first".to_string()), Ok(()));
    assert!(engine.frame(0).is_ok());
    assert!(engine.frame(0).is_ok());
    assert_eq!(
        entries(&record),
        vec!["a:load", "b:load", "a:tick", "b:tick", "a:unload", "b:unload", "c:load", "c:tick"]
    );
}

#[test]
fn key_is_reported_pressed_once_per_held_interval() {
    let record = log();
    let mut engine = new_engine();
    let scene = engine.register_scene("main".to_string());
    scene.register_game_object(
        GameObjectBuilder::new().behaviour(Probe::new("k", Script::WatchKey(32), &record)),
    );
    engine.set_current_scene("main".to_string()).unwrap();
    record.borrow_mut().clear();
    engine.tick().unwrap();
    engine.key_pressed(32);
    assert!(engine.is_key_down(32));
    engine.tick().unwrap();
    engine.tick().unwrap();
    engine.key_pressed(33);
    engine.tick().unwrap();
    engine.key_released(32);
    assert!(!engine.is_key_down(32));
    engine.tick().unwrap();
    engine.key_pressed(32);
    engine.tick().unwrap();
    engine.tick().unwrap();
    assert_eq!(
        entries(&record),
        vec!["k:-", "k:pressed", "k:-", "k:-", "k:-", "k:pressed", "k:-"]
    );
}

#[test]
fn later_write_to_the_data_map_wins() {
    let record = log();
    let mut engine = new_engine();
    let scene = engine.register_scene("main".to_string());
    scene.data_map.insert("score".to_string(), "0".to_string());
    scene.register_game_object(
        GameObjectBuilder::new().behaviour(Probe::new("s", Script::SetScoreTwice, &record)),
    );
    engine.set_current_scene("main".to_string()).unwrap();
    engine.tick().unwrap();
    let before = engine.active_scene().unwrap().data_map.get("score");
    assert_eq!(before, Some("0".to_string()));
    let report = engine.handle_events();
    assert!(report.failures.is_empty());
    assert!(!report.channel_closed);
    let after = engine.active_scene().unwrap().data_map.get("score");
    assert_eq!(after, Some("2".to_string()));
}

#[test]
fn data_events_are_applied_in_order() {
    let mut engine = new_engine();
    engine.register_scene("main".to_string());
    engine.set_current_scene("main".to_string()).unwrap();
    let set = |k: &str, v: &str| EngineEvent::SetDatamapValue((k.to_string(), v.to_string()));
    let insert = |k: &str, v: &str| EngineEvent::InsertDatamapValue((k.to_string(), v.to_string()));
    assert_eq!(engine.apply_event(set("lives", "3")).err(), Some(EngineError::MissingDataKey));
    assert!(!engine.active_scene().unwrap().data_map.contains_key("lives"));
    assert!(matches!(engine.send(insert("lives", "3")), Ok(None)));
    assert!(matches!(engine.send(set("lives", "2")), Ok(None)));
    assert!(matches!(engine.send(insert("name", "ada")), Ok(None)));
    assert!(matches!(engine.send(EngineEvent::RemoveDatamapValue("name".to_string())), Ok(None)));
    assert!(matches!(engine.send(EngineEvent::RemoveDatamapValue("none".to_string())), Ok(None)));
    assert_eq!(engine.active_scene().unwrap().data_map.get("lives"), None);
    assert!(engine.handle_events().sounds.is_empty());
    assert_eq!(engine.active_scene().unwrap().data_map.get("lives"), Some("2".to_string()));
    assert_eq!(engine.active_scene().unwrap().data_map.get("name"), None);
}

#[test]
fn switching_back_resets_the_scene_to_what_was_registered() {
    let mut engine = new_engine();
    let scene = engine.register_scene("main".to_string());
    scene.data_map.insert("score".to_string(), "0".to_string());
    engine.register_scene("other".to_string());
    engine.set_current_scene("main".to_string()).unwrap();
    let set = EngineEvent::SetDatamapValue(("score".to_string(), "9".to_string()));
    assert!(engine.apply_event(set).is_ok());
    assert_eq!(engine.active_scene().unwrap().data_map.get("score"), Some("9".to_string()));
    assert_eq!(engine.scene("main").unwrap().data_map.get("score"), Some("0".to_string()));
    let back = EngineEvent::SwitchToScene("main".to_string());
    assert!(matches!(engine.apply_event(back), Ok(None)));
    assert_eq!(engine.active_scene().unwrap().data_map.get("score"), Some("0".to_string()));
    let missing = EngineEvent::SwitchToScene("nowhere".to_string());
    assert_eq!(engine.apply_event(missing).err(), Some(EngineError::MissingScene));
}

#[test]
fn events_need_an_active_scene() {
    let mut engine = new_engine();
    let insert = EngineEvent::InsertDatamapValue(("a".to_string(), "b".to_string()));
    assert_eq!(engine.apply_event(insert).err(), Some(EngineError::NoActiveScene));
    let remove = EngineEvent::RemoveDatamapValue("a".to_string());
    assert_eq!(engine.apply_event(remove).err(), Some(EngineError::NoActiveScene));
    let broadcast = EngineEvent::UserEvent(vec![1]);
    assert_eq!(engine.apply_event(broadcast).err(), Some(EngineError::NoActiveScene));
    let sound = EngineEvent::PlaySound(AudioSourceBuilder::new().build());
    assert!(matches!(engine.apply_event(sound), Ok(Some(_))));
}

#[test]
fn full_queue_hands_the_event_back() {
    let engine = new_engine();
    for i in 0..60 {
        let sent = engine.send(EngineEvent::UserEvent(vec![i as u8]));
        assert!(matches!(sent, Ok(None)));
    }
    match engine.send(EngineEvent::UserEvent(vec![200])) {
        Ok(Some(EngineEvent::UserEvent(bytes))) => assert_eq!(bytes, vec![200]),
        _ => panic!("the event should have come back"),
    }
}

#[test]
fn sounds_are_forwarded_verbatim_and_in_order() {
    let mut engine = new_engine();
    engine.register_scene("main".to_string());
    engine.set_current_scene("main".to_string()).unwrap();
    let quiet = AudioSourceBuilder::new()
        .volume(0.25f64.to_bits())
        .rate(2.0f64.to_bits())
        .pan(0.0f64.to_bits())
        .path("boom.ogg")
        .build();
    let plain = AudioSourceBuilder::new().build();
    assert_eq!(plain.volume_bits(), ONE_BITS);
    assert_eq!(plain.playback_rate_bits(), ONE_BITS);
    assert_eq!(plain.panning_bits(), HALF_BITS);
    assert_eq!(f64::from_bits(plain.volume_bits()), 1.0);
    assert_eq!(f64::from_bits(plain.panning_bits()), 0.5);
    assert_eq!(plain.path(), "");
    assert!(matches!(engine.send(EngineEvent::PlaySound(quiet)), Ok(None)));
    assert!(matches!(engine.send(EngineEvent::PlaySound(plain)), Ok(None)));
    let report = engine.frame(0).unwrap();
    assert_eq!(report.steps, 0);
    assert!(report.stale_entities.is_empty());
    assert_eq!(report.sounds.len(), 2);
    assert_eq!(report.sounds[0].path(), "boom.ogg");
    assert_eq!(f64::from_bits(report.sounds[0].volume_bits()), 0.25);
    assert_eq!(f64::from_bits(report.sounds[0].playback_rate_bits()), 2.0);
    assert_eq!(f64::from_bits(report.sounds[0].panning_bits()), 0.0);
    assert_eq!(report.sounds[1].path(), "");
}

#[test]
fn broadcast_reaches_every_entity_at_its_next_tick() {
    let record = log();
    let mut engine = new_engine();
    let scene = engine.register_scene("main".to_string());
    scene.register_game_object(
        GameObjectBuilder::new().behaviour(Probe::new("a", Script::Record, &record)),
    );
    scene.register_game_object(
        GameObjectBuilder::new().behaviour(Probe::new("b", Script::Record, &record)),
    );
    engine.set_current_scene("main".to_string()).unwrap();
    record.borrow_mut().clear();
    assert!(matches!(engine.send(EngineEvent::UserEvent(vec![4, 2])), Ok(None)));
    assert!(engine.frame(0).is_ok());
    assert_eq!(engine.active_scene().unwrap().game_objects[0].inbox.len(), 1);
    assert!(engine.frame(0).is_ok());
    assert!(engine.frame(0).is_ok());
    assert_eq!(
        entries(&record),
        vec![
            "a:tick", "b:tick", "a:event[4, 2]", "a:tick", "b:event[4, 2]", "b:tick", "a:tick",
            "b:tick"
        ]
    );
}

#[test]
fn notify_queues_messages_in_order() {
    let mut engine = new_engine();
    let scene = engine.register_scene("main".to_string());
    scene.register_game_object(GameObjectBuilder::new());
    scene.game_objects[0].notify(&[1, 2]);
    scene.game_objects[0].notify(&[3]);
    assert_eq!(
        scene.game_objects[0].inbox,
        vec![GameObjectIPC::UserEvent(vec![1, 2]), GameObjectIPC::UserEvent(vec![3])]
    );
}

#[test]
fn pull_request_is_answered_with_the_owner_of_the_collider() {
    let record = log();
    let mut engine = new_engine();
    let scene = engine.register_scene("main".to_string());
    scene.register_game_object(GameObjectBuilder::new());
    let owner = scene
        .register_game_object(GameObjectBuilder::new().collider(ColliderBuilder::ball(1.0).build()))
        .physics
        .collider_handle
        .unwrap();
    engine.set_current_scene("main".to_string()).unwrap();
    let request = PullGameObjectRequest::new(owner, Reply { log: record.clone() });
    assert!(matches!(engine.apply_event(EngineEvent::PullGameObject(request)), Ok(None)));
    assert_eq!(entries(&record), vec!["pulled:1"]);
    let stale = ColliderHandle { index: 40, generation: 3 };
    let request = PullGameObjectRequest::new(stale, Reply { log: record.clone() });
    assert_eq!(
        engine.apply_event(EngineEvent::PullGameObject(request)).err(),
        Some(EngineError::MissingHandle)
    );
    assert_eq!(entries(&record), vec!["pulled:1"]);
}

#[test]
fn steps_depend_on_total_time_only() {
    let chunked: Vec<Vec<u64>> = vec![vec![100], vec![10, 40, 50], vec![1; 100], vec![33, 33, 34]];
    for deltas in chunked {
        let mut engine = new_engine();
        engine.register_scene("main".to_string());
        engine.set_current_scene("main".to_string()).unwrap();
        let mut steps = 0;
        for delta in deltas {
            steps += engine.step_physics(delta).unwrap();
        }
        assert_eq!(steps, 6);
    }
    let mut engine = new_engine();
    engine.register_scene("main".to_string());
    engine.set_current_scene("main".to_string()).unwrap();
    assert_eq!(engine.step_physics(16), Ok(0));
    assert_eq!(engine.step_physics(1), Ok(1));
    assert_eq!(engine.step_physics(16), Ok(0));
    assert_eq!(engine.step_physics(17), Ok(2));
    assert_eq!(engine.step_physics(1000), Ok(60));
}

#[test]
fn positions_follow_the_bodies() {
    let record = log();
    let mut engine = new_engine();
    let scene = engine.register_scene("main".to_string());
    scene.register_game_object(
        GameObjectBuilder::new()
            .rigid_body(RigidBodyBuilder::dynamic().translation(rapier2d::math::Vector::new(1.5, -2.0)).build())
            .behaviour(Probe::new("m", Script::Move(vec![4.0, 8.0]), &record)),
    );
    scene.register_game_object(GameObjectBuilder::new().position(5, 6));
    engine.set_current_scene("main".to_string()).unwrap();
    assert_eq!(engine.sync_positions().unwrap(), Vec::<usize>::new());
    let object = &engine.active_scene().unwrap().game_objects[0];
    assert_eq!(f32::from_bits(object.pos_x_bits), 1.5);
    assert_eq!(f32::from_bits(object.pos_y_bits), -2.0);
    let report = engine.frame(17).unwrap();
    assert_eq!(report.steps, 1);
    let object = &engine.active_scene().unwrap().game_objects[0];
    assert_eq!(f32::from_bits(object.pos_x_bits), 4.0);
    assert_eq!(f32::from_bits(object.pos_y_bits), 0.0);
    let other = &engine.active_scene().unwrap().game_objects[1];
    assert_eq!((other.pos_x_bits, other.pos_y_bits), (5, 6));
}

#[test]
fn entity_with_a_removed_body_is_reported_and_skipped() {
    let record = log();
    let mut engine = new_engine();
    let scene = engine.register_scene("main".to_string());
    scene.register_game_object(
        GameObjectBuilder::new().rigid_body(RigidBodyBuilder::dynamic().build()),
    );
    scene.register_game_object(
        GameObjectBuilder::new()
            .position(11, 12)
            .rigid_body(RigidBodyBuilder::dynamic().build())
            .behaviour(Probe::new("d", Script::DropBody, &record)),
    );
    engine.set_current_scene("main".to_string()).unwrap();
    let report = engine.frame(0).unwrap();
    assert_eq!(report.stale_entities, vec![1]);
    let object = &engine.active_scene().unwrap().game_objects[1];
    assert_eq!((object.pos_x_bits, object.pos_y_bits), (11, 12));
}

/// Builds a scene with a sensor at the origin and a ball that moves along
/// `path`, and returns what the watcher wrote down on each of `frames`
/// ticks.
fn watch_overlap(script: Script, sensor: bool, path: Vec<f32>, frames: usize) -> Vec<String> {
    let record = log();
    let watcher = Probe::new("w", script, &record);
    let pair = watcher.pair.clone();
    let mut engine = new_engine();
    let scene = engine.register_scene("main".to_string());
    let fixed = scene
        .register_game_object(
            GameObjectBuilder::new()
                .collider(ColliderBuilder::ball(1.0).sensor(sensor).build())
                .behaviour(watcher),
        )
        .physics
        .collider_handle
        .unwrap();
    let moving = scene
        .register_game_object(
            GameObjectBuilder::new()
                .rigid_body(
                    RigidBodyBuilder::dynamic()
                        .translation(rapier2d::math::Vector::new(path[0], 0.0))
                        .build(),
                )
                .collider(ColliderBuilder::ball(1.0).build())
                .behaviour(Probe::new("m", Script::Move(path), &record)),
        )
        .physics
        .collider_handle
        .unwrap();
    *pair.borrow_mut() = Some((fixed, moving));
    engine.set_current_scene("main".to_string()).unwrap();
    record.borrow_mut().clear();
    for _ in 0..frames {
        let report = engine.frame(17).unwrap();
        assert!(report.steps >= 1);
    }
    entries(&record).into_iter().filter(|line| line.starts_with("w:")).collect()
}

#[test]
fn sensor_overlap_is_reported_once_on_its_first_tick() {
    let path = vec![10.0, 10.0, 10.0, 0.5, 0.5, 0.5, 0.5, 10.0, 10.0, 10.0];
    let seen = watch_overlap(Script::WatchSensor, true, path, 12);
    assert_eq!(seen.iter().filter(|line| line.as_str() == "w:begin").count(), 1);
    let first = seen.iter().position(|line| line != "w:apart").unwrap();
    assert_eq!(seen[first], "w:begin");
    assert!(first >= 3);
    let overlapping = seen.iter().filter(|line| line.as_str() == "w:overlap").count();
    assert!(overlapping >= 2);
    assert_eq!(seen[seen.len() - 1], "w:apart");
    assert!(!seen.contains(&"w:impossible".to_string()));
}

#[test]
fn contact_is_reported_again_after_a_full_separation() {
    let path = vec![10.0, 1.5, 1.5, 1.5, 10.0, 10.0, 10.0, 1.5, 1.5, 10.0, 10.0, 10.0];
    let seen = watch_overlap(Script::WatchContact, false, path, 14);
    assert_eq!(seen.iter().filter(|line| line.as_str() == "w:begin").count(), 2);
    let mut previous = "w:apart".to_string();
    for line in seen.iter() {
        if line == "w:begin" {
            assert_eq!(previous, "w:apart");
        }
        if line == "w:touch" {
            assert_ne!(previous, "w:apart");
        }
        previous = line.clone();
    }
    assert!(!seen.contains(&"w:impossible".to_string()));
}

#[test]
fn mouse_state_follows_the_events() {
    let mut engine = new_engine();
    assert!(!engine.mouse_data().is_left_pressed);
    engine.mouse_button(MouseButton::Left, true);
    engine.mouse_button(MouseButton::Middle, true);
    engine.mouse_button(MouseButton::Middle, false);
    engine.mouse_moved(3.5f64.to_bits(), 7.25f64.to_bits());
    let mouse = engine.mouse_data();
    assert!(mouse.is_left_pressed);
    assert!(!mouse.is_right_pressed);
    assert!(!mouse.is_middle_pressed);
    assert_eq!(f64::from_bits(mouse.mouse_x_bits), 3.5);
    assert_eq!(f64::from_bits(mouse.mouse_y_bits), 7.25);
}

#[test]
fn removing_a_collider_detaches_the_entity_from_it() {
    let mut engine = new_engine();
    let scene = engine.register_scene("main".to_string());
    scene.register_game_object(
        GameObjectBuilder::new()
            .rigid_body(RigidBodyBuilder::dynamic().build())
            .collider(ColliderBuilder::ball(1.0).build()),
    );
    scene.register_game_object(GameObjectBuilder::new());
    let handle = scene.game_objects[0].physics.collider_handle.unwrap();
    let body = scene.game_objects[0].physics.rigid_body_handle;
    assert_eq!(scene.parent_of(handle), Ok(body));
    let removed = scene.game_objects[0].remove_collider(&mut scene.world);
    assert_eq!(removed, Ok(()));
    assert_eq!(scene.game_objects[0].physics.collider_handle, None);
    assert_eq!(scene.game_objects[0].physics.rigid_body_handle, body);
    assert_eq!(scene.parent_of(handle), Err(EngineError::MissingHandle));
    assert_eq!(scene.world.collider_set().len(), 0);
    assert_eq!(scene.world.rigid_body_set().len(), 1);
    let again = scene.game_objects[0].remove_collider(&mut scene.world);
    assert_eq!(again, Err(EngineError::MissingHandle));
    scene.game_objects[0].physics.collider_handle = Some(handle);
    let stale = scene.game_objects[0].remove_collider(&mut scene.world);
    assert_eq!(stale, Err(EngineError::MissingHandle));
    assert_eq!(scene.game_objects[0].physics.collider_handle, None);
}

#[test]
fn physics_position_is_read_from_the_body() {
    let mut engine = new_engine();
    let scene = engine.register_scene("main".to_string());
    scene.register_game_object(
        GameObjectBuilder::new().rigid_body(
            RigidBodyBuilder::dynamic().translation(rapier2d::math::Vector::new(3.0, -4.5)).build(),
        ),
    );
    scene.register_game_object(GameObjectBuilder::new());
    let position = scene.game_objects[0].get_updated_physics_position(&scene.world);
    assert_eq!(position, Ok((3.0f32.to_bits(), (-4.5f32).to_bits())));
    let none = scene.game_objects[1].get_updated_physics_position(&scene.world);
    assert_eq!(none, Err(EngineError::MissingHandle));
    scene.game_objects[1].physics.rigid_body_handle =
        Some(RigidBodyHandle { index: 9, generation: 9 });
    let stale = scene.game_objects[1].get_updated_physics_position(&scene.world);
    assert_eq!(stale, Err(EngineError::MissingHandle));
}

#[test]
fn host_callbacks_get_a_view_of_the_active_scene() {
    let mut engine = new_engine();
    let seen = log();
    let written = seen.clone();
    let refused = engine.with_engine_view(move |_view: EngineView<Reply>| {
        written.borrow_mut().push("ran".to_string());
    });
    assert_eq!(refused, Err(EngineError::NoActiveScene));
    assert!(entries(&seen).is_empty());
    let scene = engine.register_scene("main".to_string());
    let owner = scene
        .register_game_object(
            GameObjectBuilder::new()
                .rigid_body(RigidBodyBuilder::dynamic().build())
                .collider(ColliderBuilder::ball(1.0).build()),
        )
        .physics;
    engine.set_current_scene("main".to_string()).unwrap();
    engine.key_pressed(5);
    let written = seen.clone();
    let ran = engine.with_engine_view(move |mut view: EngineView<Reply>| {
        let parent = view.parent_of(owner.collider_handle.unwrap());
        assert_eq!(parent, Ok(owner.rigid_body_handle));
        assert_eq!(view.translation_of(owner.rigid_body_handle.unwrap()), Ok((0, 0)));
        assert!(view.is_key_down(5));
        assert!(view.is_key_up(6));
        assert!(view.is_key_pressed(5));
        assert!(!view.is_key_pressed(5));
        let sent = view.insert_into_datamap("a".to_string(), "b".to_string());
        assert!(matches!(sent, Ok(None)));
        assert!(matches!(view.notify_global(vec![1]), Ok(None)));
        assert!(matches!(view.remove_datamap_value("zz".to_string()), Ok(None)));
        let sound = AudioSourceBuilder::new().path("a.ogg").build();
        assert!(matches!(view.play_sound(sound), Ok(None)));
        let pull = view.pull_game_object_from_collider(
            owner.collider_handle.unwrap(),
            Reply { log: written.clone() },
        );
        assert!(matches!(pull, Ok(None)));
        written.borrow_mut().push("ran".to_string());
    });
    assert_eq!(ran, Ok(()));
    let sounds = engine.handle_events().sounds;
    assert_eq!(sounds.len(), 1);
    assert_eq!(sounds[0].path(), "a.ogg");
    assert_eq!(entries(&seen), vec!["ran", "pulled:0"]);
    assert_eq!(engine.active_scene().unwrap().data_map.get("a"), Some("b".to_string()));
    assert_eq!(engine.active_scene().unwrap().game_objects[0].inbox.len(), 1);
}

#[test]
fn copies_of_a_scene_keep_look_and_interface() {
    let mut engine = new_engine();
    let scene = engine.register_scene("main".to_string());
    let sprite = GraphicsType::Sprite(SpriteData {
        sprite_id: "hero".to_string(),
        width_bits: 1.0f32.to_bits(),
        height_bits: 2.0f32.to_bits(),
        flip_h: true,
        flip_v: false,
    });
    let circle = GraphicsType::Circle(CircleData {
        radius_bits: 3.0f32.to_bits(),
        color: RGBColor { red: 9, green: 8, blue: 7 },
    });
    scene.register_game_object(GameObjectBuilder::new().graphics(sprite.clone()));
    scene.register_game_object(GameObjectBuilder::new());
    scene.game_objects[1].add_graphics(circle.clone());
    scene.game_objects[1].notify(&[7]);
    scene.function_map.insert("dec_health".to_string(), 4);
    assert_eq!(scene.try_register_ui("<text font=\"a\">one</text>\n<button bind=\"b\">?n</button>"), Ok(()));
    engine.set_current_scene("main".to_string()).unwrap();
    let active = engine.active_scene().unwrap();
    assert_eq!(active.game_objects[0].graphics, Some(sprite));
    assert_eq!(active.game_objects[1].graphics, Some(circle));
    assert_eq!(active.game_objects[1].inbox, vec![GameObjectIPC::UserEvent(vec![7])]);
    assert_eq!(active.function_map.get("dec_health"), Some(4));
    assert_eq!(active.ui_ast, engine.scene("main").unwrap().ui_ast);
    assert_eq!(active.ui_ast.as_ref().unwrap().elements.len(), 2);
    assert_eq!(active.current_game_object_id, 2);
}

#[test]
fn removing_a_body_takes_its_collider_out_first() {
    let mut engine = new_engine();
    let scene = engine.register_scene("main".to_string());
    scene.register_game_object(
        GameObjectBuilder::new()
            .rigid_body(RigidBodyBuilder::dynamic().build())
            .collider(ColliderBuilder::ball(1.0).build()),
    );
    scene.register_game_object(
        GameObjectBuilder::new()
            .rigid_body(RigidBodyBuilder::dynamic().build())
            .collider(ColliderBuilder::ball(2.0).build()),
    );
    let gone = scene.game_objects[0].physics;
    let kept = scene.game_objects[1].physics;
    let removed = scene.game_objects[0].remove_rigid_body(&mut scene.world);
    assert_eq!(removed, Ok(()));
    assert_eq!(scene.game_objects[0].physics.collider_handle, None);
    assert_eq!(scene.game_objects[0].physics.rigid_body_handle, None);
    assert_eq!(scene.parent_of(gone.collider_handle.unwrap()), Err(EngineError::MissingHandle));
    assert_eq!(scene.parent_of(kept.collider_handle.unwrap()), Ok(kept.rigid_body_handle));
    assert_eq!(scene.world.rigid_body_set().len(), 1);
    assert_eq!(scene.world.collider_set().len(), 1);
    assert!(scene.world.rigid_body_set().get(raw_body(gone.rigid_body_handle.unwrap())).is_none());
    assert!(scene.world.rigid_body_set().get(raw_body(kept.rigid_body_handle.unwrap())).is_some());
    let again = scene.game_objects[0].remove_rigid_body(&mut scene.world);
    assert_eq!(again, Err(EngineError::MissingHandle));
    scene.game_objects[0].physics.rigid_body_handle = gone.rigid_body_handle;
    let stale = scene.game_objects[0].remove_rigid_body(&mut scene.world);
    assert_eq!(stale, Err(EngineError::MissingHandle));
    assert_eq!(scene.world.rigid_body_set().len(), 1);
}

#[test]
fn drain_passes_over_an_event_that_fails_and_goes_on() {
    let mut engine = new_engine();
    engine.register_scene("main".to_string());
    engine.set_current_scene("main".to_string()).unwrap();
    let insert = |k: &str, v: &str| EngineEvent::InsertDatamapValue((k.to_string(), v.to_string()));
    let set = |k: &str, v: &str| EngineEvent::SetDatamapValue((k.to_string(), v.to_string()));
    let sound = |path: &str| EngineEvent::PlaySound(AudioSourceBuilder::new().path(path).build());
    assert!(matches!(engine.send(sound("one.ogg")), Ok(None)));
    assert!(matches!(engine.send(insert("a", "1")), Ok(None)));
    assert!(matches!(engine.send(set("unknown", "x")), Ok(None)));
    assert!(matches!(engine.send(EngineEvent::SwitchToScene("nowhere".to_string())), Ok(None)));
    assert!(matches!(engine.send(insert("b", "2")), Ok(None)));
    assert!(matches!(engine.send(sound("two.ogg")), Ok(None)));
    let report = engine.handle_events();
    assert_eq!(report.failures, vec![EngineError::MissingDataKey, EngineError::MissingScene]);
    assert!(!report.channel_closed);
    assert_eq!(report.sounds.len(), 2);
    assert_eq!(report.sounds[0].path(), "one.ogg");
    assert_eq!(report.sounds[1].path(), "two.ogg");
    assert_eq!(engine.active_scene().unwrap().data_map.get("a"), Some("1".to_string()));
    assert_eq!(engine.active_scene().unwrap().data_map.get("b"), Some("2".to_string()));
    assert!(!engine.active_scene().unwrap().data_map.contains_key("unknown"));
    let again = engine.handle_events();
    assert!(again.sounds.is_empty() && again.failures.is_empty());
}

#[test]
fn a_given_list_of_events_is_applied_in_order() {
    let mut engine = new_engine();
    engine.register_scene("main".to_string());
    engine.set_current_scene("main".to_string()).unwrap();
    let insert = |k: &str, v: &str| EngineEvent::InsertDatamapValue((k.to_string(), v.to_string()));
    let set = |k: &str, v: &str| EngineEvent::SetDatamapValue((k.to_string(), v.to_string()));
    let report = engine.apply_events(vec![
        insert("score", "0"),
        set("score", "1"),
        set("score", "2"),
        insert("lives", "3"),
        EngineEvent::RemoveDatamapValue("lives".to_string()),
        set("lives", "9"),
    ]);
    assert_eq!(report.failures, vec![EngineError::MissingDataKey]);
    assert!(report.sounds.is_empty());
    assert_eq!(engine.active_scene().unwrap().data_map.get("score"), Some("2".to_string()));
    assert_eq!(engine.active_scene().unwrap().data_map.get("lives"), None);
    let none = engine.apply_events(vec![]);
    assert!(none.sounds.is_empty() && none.failures.is_empty() && !none.channel_closed);
    let mut idle: Engine<Probe, Reply> = new_engine();
    let report = idle.apply_events(vec![insert("a", "b"), EngineEvent::UserEvent(vec![1])]);
    assert_eq!(report.failures, vec![EngineError::NoActiveScene, EngineError::NoActiveScene]);
}

#[test]
fn half_steps_add_up() {
    let mut engine = new_engine();
    engine.register_scene("main".to_string());
    engine.set_current_scene("main".to_string()).unwrap();
    assert_eq!(engine.frame_units(25_000_000).unwrap().steps, 0);
    assert_eq!(engine.frame_units(25_000_000).unwrap().steps, 1);
    assert_eq!(engine.frame_units(100_000_000).unwrap().steps, 2);
    assert_eq!(engine.step_physics_units(49_999_999), Ok(0));
    assert_eq!(engine.step_physics_units(1), Ok(1));
    assert_eq!(engine.frame_nanos(16_666_666).unwrap().steps, 0);
    assert_eq!(engine.frame_nanos(1).unwrap().steps, 1);
    assert_eq!(engine.active_scene().unwrap().world.rigid_body_set().len(), 0);
}

#[test]
fn coordinates_must_be_finite() {
    let mut engine = new_engine();
    let scene = engine.register_scene("main".to_string());
    let body = scene
        .register_game_object(
            GameObjectBuilder::new().rigid_body(RigidBodyBuilder::dynamic().build()),
        )
        .physics
        .rigid_body_handle
        .unwrap();
    engine.set_current_scene("main".to_string()).unwrap();
    let ran = engine.with_engine_view(move |mut view: EngineView<Reply>| {
        let x = 2.5f32.to_bits();
        assert_eq!(view.set_translation(body, f32::NAN.to_bits(), x), Err(EngineError::NotFinite));
        assert_eq!(
            view.set_translation(body, x, f32::INFINITY.to_bits()),
            Err(EngineError::NotFinite)
        );
        assert_eq!(view.translation_of(body), Ok((0, 0)));
        let stale = RigidBodyHandle { index: 50, generation: 1 };
        assert_eq!(view.set_translation(stale, x, x), Err(EngineError::MissingHandle));
        assert_eq!(view.set_translation(body, x, (-1.0f32).to_bits()), Ok(()));
        assert_eq!(view.translation_of(body), Ok((x, (-1.0f32).to_bits())));
        assert_eq!(view.world().translation_of(body), Some((x, (-1.0f32).to_bits())));
        assert_eq!(view.remove_collider(ColliderHandle { index: 1, generation: 1 }),
            Err(EngineError::MissingHandle));
    });
    assert_eq!(ran, Ok(()));
}

#[test]
fn switch_in_the_middle_of_a_drain_redirects_later_events() {
    let record = log();
    let mut engine = new_engine();
    let first = engine.register_scene("first".to_string());
    first.register_game_object(
        GameObjectBuilder::new().behaviour(Probe::new("a", Script::Record, &record)),
    );
    let second = engine.register_scene("second".to_string());
    second.register_game_object(
        GameObjectBuilder::new().behaviour(Probe::new("b", Script::Record, &record)),
    );
    engine.set_current_scene("first".to_string()).unwrap();
    record.borrow_mut().clear();
    let insert = |k: &str, v: &str| EngineEvent::InsertDatamapValue((k.to_string(), v.to_string()));
    assert!(matches!(engine.send(insert("x", "1")), Ok(None)));
    assert!(matches!(engine.send(EngineEvent::SwitchToScene("second".to_string())), Ok(None)));
    assert!(matches!(engine.send(insert("y", "2")), Ok(None)));
    assert!(engine.handle_events().failures.is_empty());
    assert_eq!(entries(&record), vec!["a:unload", "b:load"]);
    let data = &engine.active_scene().unwrap().data_map;
    assert_eq!(data.get("x"), None);
    assert_eq!(data.get("y"), Some("2".to_string()));
}

#[test]
fn sender_is_told_what_the_queue_answered() {
    let event = || EngineEvent::<Reply>::UserEvent(vec![7]);
    assert!(matches!(send_outcome::<Reply>(Ok(true), None), Ok(None)));
    assert!(matches!(send_outcome(Ok(true), Some(event())), Ok(None)));
    match send_outcome(Ok(false), Some(event())) {
        Ok(Some(EngineEvent::UserEvent(bytes))) => assert_eq!(bytes, vec![7]),
        _ => panic!("the event should have come back"),
    }
    assert!(matches!(send_outcome::<Reply>(Ok(false), None), Ok(None)));
    assert!(matches!(
        send_outcome(Err(kanal::SendError::Closed), Some(event())),
        Err(EngineError::ChannelClosed)
    ));
    assert!(matches!(
        send_outcome(Err(kanal::SendError::ReceiveClosed), Some(event())),
        Err(EngineError::ChannelClosed)
    ));
}

#[test]
fn host_and_behaviours_share_the_key_latch() {
    let record = log();
    let mut engine = new_engine();
    let scene = engine.register_scene("main".to_string());
    scene.register_game_object(
        GameObjectBuilder::new().behaviour(Probe::new("k", Script::WatchKey(9), &record)),
    );
    engine.set_current_scene("main".to_string()).unwrap();
    record.borrow_mut().clear();
    assert!(!engine.is_key_pressed(9));
    engine.key_pressed(9);
    assert!(engine.is_key_pressed(9));
    assert!(!engine.is_key_pressed(9));
    engine.tick().unwrap();
    assert!(engine.is_key_down(9));
    engine.key_released(9);
    engine.tick().unwrap();
    engine.key_pressed(9);
    engine.tick().unwrap();
    assert!(!engine.is_key_pressed(9));
    assert_eq!(entries(&record), vec!["k:-", "k:-", "k:pressed"]);
}

#[test]
fn nothing_touches_in_a_new_world() {
    let world = alcubierre::physics::PhysicsWorld::new();
    let a = ColliderHandle { index: 0, generation: 0 };
    let b = ColliderHandle { index: 1, generation: 0 };
    assert!(!world.is_touching(a, b));
    assert!(!world.is_overlapping(a, b));
    assert!(!world.is_touching(a, a));
    assert_eq!(world.tag_of(a), None);
    assert_eq!(world.parent_of(a), None);
    assert_eq!(world.translation_of(RigidBodyHandle { index: 0, generation: 0 }), None);
    let copy = world.duplicate();
    assert!(!copy.is_overlapping(b, a));
}

#[test]
fn velocity_and_impulse_show_at_the_next_step() {
    let mut engine = new_engine();
    let scene = engine.register_scene("main".to_string());
    let body = scene
        .register_game_object(
            GameObjectBuilder::new()
                .rigid_body(RigidBodyBuilder::dynamic().build())
                .collider(ColliderBuilder::ball(1.0).build()),
        )
        .physics
        .rigid_body_handle
        .unwrap();
    engine.set_current_scene("main".to_string()).unwrap();
    let ran = engine.with_engine_view(move |mut view: EngineView<Reply>| {
        let six = 6.0f32.to_bits();
        assert_eq!(view.set_linvel(body, f32::NAN.to_bits(), 0), Err(EngineError::NotFinite));
        assert_eq!(
            view.apply_impulse(body, 0, f32::NEG_INFINITY.to_bits()),
            Err(EngineError::NotFinite)
        );
        let stale = RigidBodyHandle { index: 77, generation: 0 };
        assert_eq!(view.set_linvel(stale, six, 0), Err(EngineError::MissingHandle));
        assert_eq!(view.apply_impulse(stale, six, 0), Err(EngineError::MissingHandle));
        assert_eq!(view.set_linvel(body, six, 0), Ok(()));
        assert_eq!(view.translation_of(body), Ok((0, 0)));
    });
    assert_eq!(ran, Ok(()));
    assert_eq!(engine.step_physics_units(50_000_000), Ok(1));
    let after_velocity = engine.active_scene().unwrap().world.translation_of(body).unwrap();
    let x = f32::from_bits(after_velocity.0);
    assert!((x - 0.1).abs() < 0.001);
    assert_eq!(f32::from_bits(after_velocity.1), 0.0);
    let ran = engine.with_engine_view(move |mut view: EngineView<Reply>| {
        assert_eq!(view.apply_impulse(body, 0, 3.0f32.to_bits()), Ok(()));
        assert_eq!(view.translation_of(body), Ok(after_velocity));
    });
    assert_eq!(ran, Ok(()));
    assert_eq!(engine.step_physics_units(50_000_000), Ok(1));
    let after_impulse = engine.active_scene().unwrap().world.translation_of(body).unwrap();
    assert!(f32::from_bits(after_impulse.1) > 0.0);
    assert!(f32::from_bits(after_impulse.0) > x);
}

#[test]
fn activated_copy_has_the_world_of_the_registered_scene() {
    let mut engine = new_engine();
    let scene = engine.register_scene("main".to_string());
    let registered = scene
        .register_game_object(
            GameObjectBuilder::new()
                .position(3.0f32.to_bits(), 4.0f32.to_bits())
                .rigid_body(
                    RigidBodyBuilder::dynamic()
                        .translation(rapier2d::math::Vector::new(3.0, 4.0))
                        .build(),
                )
                .collider(ColliderBuilder::ball(1.0).build()),
        )
        .physics;
    let body = registered.rigid_body_handle.unwrap();
    let collider = registered.collider_handle.unwrap();
    let place = (3.0f32.to_bits(), 4.0f32.to_bits());
    engine.set_current_scene("main".to_string()).unwrap();
    let active = engine.active_scene().unwrap();
    assert_eq!(active.game_objects[0].physics, registered);
    assert_eq!((active.game_objects[0].pos_x_bits, active.game_objects[0].pos_y_bits), place);
    assert_eq!(active.world.translation_of(body), Some(place));
    assert_eq!(active.world.parent_of(collider), Some(Some(body)));
    assert_eq!(active.world.tag_of(collider), Some(0));
    assert!(!active.world.is_touching(collider, collider));
    let ran = engine.with_engine_view(move |mut view: EngineView<Reply>| {
        assert_eq!(view.set_translation(body, 9.0f32.to_bits(), 0), Ok(()));
        assert_eq!(view.remove_collider(collider), Ok(()));
    });
    assert_eq!(ran, Ok(()));
    let active = engine.active_scene().unwrap();
    assert_eq!(active.world.translation_of(body), Some((9.0f32.to_bits(), 0)));
    assert_eq!(active.world.tag_of(collider), None);
    assert_eq!(engine.scene("main").unwrap().world.translation_of(body), Some(place));
    engine.set_current_scene("main".to_string()).unwrap();
    let active = engine.active_scene().unwrap();
    assert_eq!(active.game_objects[0].physics, registered);
    assert_eq!(active.world.translation_of(body), Some(place));
    assert_eq!(active.world.parent_of(collider), Some(Some(body)));
    assert_eq!(active.world.tag_of(collider), Some(0));
}

#[test]
fn pull_request_for_a_stale_collider_changes_nothing() {
    let record = log();
    let mut engine = new_engine();
    let scene = engine.register_scene("main".to_string());
    let physics = scene
        .register_game_object(
            GameObjectBuilder::new()
                .rigid_body(
                    RigidBodyBuilder::dynamic()
                        .translation(rapier2d::math::Vector::new(1.0, 2.0))
                        .build(),
                )
                .collider(ColliderBuilder::ball(1.0).build()),
        )
        .physics;
    scene.data_map.insert("score".to_string(), "4".to_string());
    engine.set_current_scene("main".to_string()).unwrap();
    engine.key_pressed(3);
    let stale = ColliderHandle { index: 12, generation: 5 };
    let request = PullGameObjectRequest::new(stale, Reply { log: record.clone() });
    let report = engine.apply_events(vec![EngineEvent::PullGameObject(request)]);
    assert_eq!(report.failures, vec![EngineError::MissingHandle]);
    assert!(report.sounds.is_empty());
    assert!(entries(&record).is_empty());
    let active = engine.active_scene().unwrap();
    assert_eq!(active.game_objects.len(), 1);
    assert_eq!(active.game_objects[0].physics, physics);
    assert_eq!(active.data_map.get("score"), Some("4".to_string()));
    assert_eq!(
        active.world.translation_of(physics.rigid_body_handle.unwrap()),
        Some((1.0f32.to_bits(), 2.0f32.to_bits()))
    );
    assert_eq!(active.world.tag_of(physics.collider_handle.unwrap()), Some(0));
    assert!(engine.is_key_pressed(3));
}

#[test]
fn every_behaviour_of_an_entity_runs_at_each_tick() {
    let record = log();
    let mut engine = new_engine();
    let scene = engine.register_scene("main".to_string());
    scene.register_game_object(
        GameObjectBuilder::new()
            .behaviour(Probe::new("a", Script::Record, &record))
            .behaviour(Probe::new("b", Script::Record, &record)),
    );
    scene.register_game_object(GameObjectBuilder::new());
    scene.register_game_object(
        GameObjectBuilder::new().behaviour(Probe::new("c", Script::Record, &record)),
    );
    engine.set_current_scene("main".to_string()).unwrap();
    assert_eq!(entries(&record), vec!["a:load", "b:load", "c:load"]);
    record.borrow_mut().clear();
    assert!(engine.apply_event(EngineEvent::UserEvent(vec![7])).is_ok());
    engine.tick().unwrap();
    assert_eq!(
        entries(&record),
        vec!["a:event[7]", "a:tick", "b:event[7]", "b:tick", "c:event[7]", "c:tick"]
    );
    record.borrow_mut().clear();
    engine.tick().unwrap();
    assert_eq!(entries(&record), vec!["a:tick", "b:tick", "c:tick"]);
    record.borrow_mut().clear();
    engine.set_current_scene("main".to_string()).unwrap();
    assert_eq!(
        entries(&record),
        vec!["a:unload", "b:unload", "c:unload", "a:load", "b:load", "c:load"]
    );
}

#[test]
fn a_body_can_be_placed_and_its_forces_reset() {
    let mut engine = new_engine();
    let scene = engine.register_scene("main".to_string());
    let body = scene
        .register_game_object(
            GameObjectBuilder::new()
                .rigid_body(
                    RigidBodyBuilder::dynamic()
                        .translation(rapier2d::math::Vector::new(1.0, 1.0))
                        .build(),
                )
                .collider(ColliderBuilder::ball(1.0).build()),
        )
        .physics
        .rigid_body_handle
        .unwrap();
    engine.set_current_scene("main".to_string()).unwrap();
    let ran = engine.with_engine_view(move |mut view: EngineView<Reply>| {
        let two = 2.0f32.to_bits();
        let five = 5.0f32.to_bits();
        let half = 0.5f32.to_bits();
        assert_eq!(view.set_position(body, two, five, f32::NAN.to_bits()), Err(EngineError::NotFinite));
        assert_eq!(view.set_position(body, f32::INFINITY.to_bits(), five, half), Err(EngineError::NotFinite));
        assert_eq!(view.translation_of(body), Ok((1.0f32.to_bits(), 1.0f32.to_bits())));
        let stale = RigidBodyHandle { index: 31, generation: 2 };
        assert_eq!(view.set_position(stale, two, five, half), Err(EngineError::MissingHandle));
        assert_eq!(view.reset_forces(stale), Err(EngineError::MissingHandle));
        assert_eq!(view.set_position(body, two, five, half), Ok(()));
        assert_eq!(view.translation_of(body), Ok((two, five)));
        let raw = raw_body(body);
        let angle = view.world().rigid_body_set().get(raw).unwrap().rotation().angle();
        assert!((angle - 0.5).abs() < 0.0001);
        assert_eq!(view.reset_forces(body), Ok(()));
        assert_eq!(view.translation_of(body), Ok((two, five)));
    });
    assert_eq!(ran, Ok(()));
}

#[test]
fn a_body_that_is_where_it_is_sent_may_keep_the_sign_of_a_zero() {
    let mut engine = new_engine();
    let scene = engine.register_scene("main".to_string());
    let body = scene
        .register_game_object(
            GameObjectBuilder::new().rigid_body(RigidBodyBuilder::dynamic().build()),
        )
        .physics
        .rigid_body_handle
        .unwrap();
    engine.set_current_scene("main".to_string()).unwrap();
    let ran = engine.with_engine_view(move |mut view: EngineView<Reply>| {
        let minus_zero = (-0.0f32).to_bits();
        assert_ne!(minus_zero, 0);
        assert_eq!(view.set_translation(body, minus_zero, 0), Ok(()));
        let now = view.translation_of(body).unwrap();
        assert!(now == (minus_zero, 0) || now == (0, 0));
        let one = 1.0f32.to_bits();
        assert_eq!(view.set_translation(body, one, minus_zero), Ok(()));
        assert_eq!(view.translation_of(body), Ok((one, minus_zero)));
        assert_eq!(view.set_position(body, one, 0, 0), Ok(()));
        let now = view.translation_of(body).unwrap();
        assert!(now == (one, 0) || now == (one, minus_zero));
    });
    assert_eq!(ran, Ok(()));
}
