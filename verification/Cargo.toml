[package]
name = "ogmios_proxy"
version = "0.1.0"
edition = "2021"
publish = false

[dependencies]
regex = "1"
leaky-bucket = "1.1.2"
tokio = { version = "1", features = ["full"] }
hyper = { version = "1", features = ["http1", "server", "client"] }
hyper-util = { version = "0.1", features = ["tokio"] }
http-body-util = "0.1"
bytes = "1"
futures = "0.3"
futures-util = "0.3"
prometheus = "0.13"
reqwest = { version = "0.12", default-features = false, features = ["json"] }
serde = { version = "1", features = ["derive"] }
serde_json = "1"
toml = "0.8"
notify = "6"
tokio-tungstenite = "0.21"
url = "2"
tracing = "0.1"
tracing-subscriber = "0.3"
dotenv = "0.15"
lazy_static = "1"
chrono = "0.4"
thiserror = "1"
async-trait = "0.1"

[dev-dependencies]
tokio = { version = "1", features = ["full", "test-util"] }
