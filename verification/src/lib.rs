//! Runtime core of a small 2D game engine: entities with scripted behaviours,
//! one physics world per scene, edge-triggered input and collision queries,
//! and a queue of deferred effects drained once per frame.

pub mod tables;
pub mod latch;
pub mod timestep;
pub mod physics;
pub mod ui;
pub mod audio;
pub mod game_object;
pub mod keyboard;
pub mod events;
pub mod scene;
pub mod engine;
pub mod renderer;

pub use crate::engine::Engine;
pub use crate::engine::EngineConfig;
pub use crate::engine::MouseData;
pub use crate::events::EngineEvent;
pub use crate::scene::Scene;
