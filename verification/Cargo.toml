[package]
name = "pokered_core"
version = "0.1.0"
edition = "2021"
publish = false

[dependencies]
serde = { version = "=1.0.229", features = ["derive"] }
serde_json = "=1.0.154"
rand = "=0.8.8"
log = "=0.4.35"
dotzuki-engine = "=0.10.1"
dotzuki-engine-script = "=0.10.1"
dotzuki-engine-dsl = "=0.10.1"
