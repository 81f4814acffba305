[package]
name = "absence"
version = "0.1.0"
edition = "2021"
publish = false

[dependencies]
base64 = "*"
chrono = { version = "*", features = ["serde"] }
clap = { version = "*", features = ["derive"] }
human_bytes = "*"
memory-stats = "*"
mlua = { version = "*", features = ["lua54", "vendored"] }
regex = "*"
reqwest = { version = "*", default-features = false, features = ["blocking", "json", "rustls-tls"] }
serde = { version = "*", features = ["derive"] }
serde_json = "*"
simple-semaphore = "*"
tangra = "*"
toml = "*"
