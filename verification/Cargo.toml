[package]
name = "shared_note"
version = "0.1.0"
edition = "2021"
publish = false

[dependencies]
futures = "0.3"
serde = { version = "1", features = ["derive"] }
serde_json = "1"
tokio = { version = "1", features = ["macros", "rt-multi-thread", "sync"] }
warp = "0.3"
