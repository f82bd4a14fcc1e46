[package]
name = "clawd"
version = "0.1.0"
edition = "2021"
publish = false

[dependencies]
rand = { version = "0.8", features = ["small_rng"] }
parking_lot = "0.12"
serde = { version = "1", features = ["derive"] }
serde_json = "1"
tokio = { version = "1", features = ["time", "net", "rt", "macros"] }
axum = "0.7"
dirs = "5"
trash = "5"
log = "0.4"
tauri = { version = "2", default-features = false }
