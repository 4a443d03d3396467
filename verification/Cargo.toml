[package]
name = "mlb_api"
version = "0.1.0"
edition = "2021"
publish = false

[dependencies]
chrono = "0.4"
serde = { version = "1", features = ["derive"] }
serde_json = "1"
serde_path_to_error = "*"
serde_with = "*"
tokio = { version = "1", features = ["rt", "time", "sync"] }
reqwest = { version = "*", default-features = false }
uom = "*"
uuid = { version = "1", features = ["serde"] }
fxhash = "*"
thiserror = "*"
itertools = "*"
either = "*"
