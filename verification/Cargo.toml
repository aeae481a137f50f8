[package]
name = "mock_openai"
version = "0.1.0"
edition = "2021"
publish = false

[dependencies]
axum = "*"
axum-extra = { version = "*", features = ["typed-header"] }
clap = { version = "*", features = ["derive"] }
duration-string = "*"
env_logger = "*"
futures-util = "*"
log = "*"
reqwest = { version = "*", default-features = false }
serde = { version = "*", features = ["derive"] }
serde_json = "*"
tokio = { version = "*", features = ["full"] }
tokio-stream = "*"
tower-http = { version = "*", features = ["trace"] }
