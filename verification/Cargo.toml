[package]
name = "csharp_provider"
version = "0.1.0"
edition = "2021"
publish = false

[dependencies]
serde = { version = "*", features = ["derive"] }
serde_yml = "*"
tokio = { version = "*", features = ["macros", "rt-multi-thread", "sync"] }
tokio-stream = "*"
tonic = "*"
tracing = "*"
utoipa = "*"
