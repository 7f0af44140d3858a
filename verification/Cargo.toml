[package]
name = "mm_client"
version = "0.1.0"
edition = "2021"
publish = false

[dependencies]
app_dirs = "1"
clap = "2"
reqwest = { version = "0.12", features = ["blocking"] }
serde = { version = "1", features = ["derive"] }
serde_json = "1"
toml = "0.8"

[dev-dependencies]
mockito = "1"
uuid = { version = "1", features = ["v4"] }
