[package]
name = "macro_replay"
version = "0.1.0"
edition = "2021"
publish = false

[dependencies]
serde = { version = "=1.0.229", features = ["derive"] }
serde_json = "=1.0.151"
chrono = { version = "=0.4.45", features = ["serde"] }
parking_lot = "=0.12.5"
rdev = "=0.5.3"
enigo = "=0.6.1"
