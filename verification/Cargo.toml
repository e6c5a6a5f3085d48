[package]
name = "glycoprotein"
version = "0.1.0"
edition = "2021"
publish = false

[dependencies]
async-trait = "0.1"
chrono = { version = "0.4", default-features = false, features = ["clock", "std", "serde"] }
jsonschema = { version = "*", default-features = false }
schemars = "1"
serde = { version = "1", features = ["derive"] }
serde_json = "1"
socket2 = "0.6"
thiserror = "2"
tokio = { version = "1", features = ["macros", "rt-multi-thread", "sync", "time"] }
tokio-util = "0.7"
tracing = "0.1"
uuid = { version = "1", features = ["serde", "v4"] }
