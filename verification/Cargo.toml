[package]
name = "mini_msp"
version = "0.1.0"
edition = "2021"
publish = false

[dependencies]
uuid = { version = "1", features = ["v4"] }
serde = { version = "1", features = ["derive"] }
serde_json = "1"
toml = "0.8"
tokio = { version = "1", features = ["full"] }
axum = { version = "0.7", features = ["ws"] }
futures-util = "0.3"
jsonwebtoken = "9"
chrono = "0.4"
clap = { version = "4", features = ["env"] }
gethostname = "0.4"
num_cpus = "1"
rand = "0.8"
libloading = "0.8"
tokio-tungstenite = "0.21"
async-nats = "0.33"
reqwest = { version = "0.11", default-features = false, features = ["json"] }
sysinfo = "0.30"
anyhow = "1"
async-trait = "0.1"
tracing = "0.1"
tracing-subscriber = { version = "0.3", features = ["env-filter", "json"] }
tracing-appender = "0.2"
tower-http = { version = "0.5", features = ["cors", "fs", "trace"] }
