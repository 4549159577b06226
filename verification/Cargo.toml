[package]
name = "evo_king"
version = "0.2.0"
edition = "2021"
publish = false

[dependencies]
anyhow = "1.0"
axum = "0.8"
chrono = { version = "0.4", features = ["serde"] }
clap = { version = "4", features = ["derive"] }
evo-common = "*"
hex = "0.4"
libsql = { version = "0.6", default-features = false, features = ["core"] }
notify = "8"
opentelemetry-proto = { version = "*", default-features = false, features = ["gen-tonic-messages", "trace", "with-serde"] }
portable-pty = "0.8"
prost = "*"
reqwest = { version = "0.12", default-features = false, features = ["json"] }
serde = { version = "1.0", features = ["derive"] }
serde_json = "1.0"
socketioxide = { version = "0.15", features = ["state"] }
thiserror = "2.0"
tokio = { version = "1", features = ["full"] }
tower-http = { version = "0.6", features = ["cors", "fs"] }
tracing = "0.1"
uuid = { version = "1.0", features = ["v4"] }
