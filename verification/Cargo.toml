[package]
name = "ring_client"
version = "0.1.0"
edition = "2021"
publish = false

[dependencies]
chrono = "*"
futures-util = "*"
log = "*"
rand = "*"
rand_seeder = "*"
reqwest = { version = "*", features = ["json"] }
serde = { version = "*", features = ["derive"] }
serde_json = "*"
thiserror = "*"
tokio = { version = "*", features = ["rt", "sync", "net", "time", "macros"] }
tokio-tungstenite = "*"
