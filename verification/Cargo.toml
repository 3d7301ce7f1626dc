[package]
name = "alcubierre"
version = "0.1.0"
edition = "2021"
publish = false

[dependencies]
rapier2d = "0.17"
nalgebra = "0.32"
hashbrown = "0.14"
kanal = "0.1.0-pre8"
winit = "0.28"
instant = "0.1"
rhai = "1"
serde = { version = "1", features = ["derive"] }
serde_json = "1"
log = "0.4"
