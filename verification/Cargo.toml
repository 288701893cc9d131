[package]
name = "gamesynth"
version = "0.1.0"
edition = "2021"
publish = false

[dependencies]
indexmap = { version = "=2.14.2", features = ["serde"] }
serde = { version = "=1.0.229", features = ["derive"] }
serde_json = "=1.0.154"
toml = { version = "=1.1.8", features = ["preserve_order"] }
rtrb = "=0.4.1"
godot = "=0.5.5"
godot-core = "=0.5.5"
