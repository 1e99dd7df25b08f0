[package]
name = "codex_lux"
version = "0.1.8"
edition = "2021"
publish = false

[dependencies]
rusqlite = { version = "*", features = ["bundled"] }
serde_json = "*"
regex = "*"
chrono = "*"
directories = "*"
log = "*"
env_logger = "*"
anyhow = "*"
rsword_chirho = "*"

[dev-dependencies]
tempfile = "*"
