[package]
name = "feverdream"
version = "0.1.0"
edition = "2021"
publish = false

[dependencies]
bevy = { version = "0.17", default-features = false, features = ["std"] }
pathfinding = "4"
rand = "0.9"
derive_more = { version = "2", features = ["error", "display"] }
tiny_bail = "0.4"
tracing = "0.1"
