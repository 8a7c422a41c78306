[package]
name = "cosmic_wal"
version = "0.1.0"
edition = "2021"
publish = false

[dependencies]
serde_json = "1"
toml = "0.9"
notify = "8"
tokio = { version = "1", features = ["macros", "rt-multi-thread"] }
