[package]
name = "voice_assistant"
version = "0.1.0"
edition = "2021"
publish = false

[dependencies]
anyhow = "1"
clap = { version = "4", features = ["derive"] }
clap_complete = "4"
cpal = "0.15"
indicatif = "0.17"
pyo3 = "0.22"
reqwest = { version = "0.12", default-features = false, features = ["blocking", "json"] }
rodio = "0.17"
serde = { version = "1", features = ["derive"] }
serde_json = "1"
termcolor = "1"
thiserror = "1"
tokio = { version = "1", features = ["macros", "rt-multi-thread"] }
toml = "0.8"
tracing-subscriber = { version = "0.3", features = ["env-filter"] }

[dev-dependencies]
hound = "3"
