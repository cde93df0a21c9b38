[package]
name = "vrc_companion"
version = "0.2.0"
edition = "2021"
publish = false

[dependencies]
rosc = "0.10"
serde = { version = "1", features = ["derive"] }
serde_json = "1"
dirs = "5"
reqwest = { version = "0.12", default-features = false, features = ["blocking", "json"] }
tokio = { version = "1", features = ["rt-multi-thread", "sync"] }
arboard = { version = "3", default-features = false }
