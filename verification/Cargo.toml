[package]
name = "platform_deploy"
version = "0.1.0"
edition = "2021"
publish = false

[dependencies]
anyhow = "1"
bindle = { version = "0.8.2", default-features = false, features = ["client"] }
chrono = "0.4"
clap = { version = "3.2", features = ["derive", "env"] }
dirs = "4"
hippo-openapi = "0.10"
rand = "0.8"
reqwest = { version = "0.11", features = ["json"] }
semver = "1"
serde = { version = "1", features = ["derive"] }
serde_json = "1"
sha2 = "0.10"
tempfile = "3"
tokio = { version = "1", features = ["fs", "time", "rt", "macros"] }
tracing = "0.1"
url = { version = "2", features = ["serde"] }
uuid = { version = "1", features = ["serde"] }
