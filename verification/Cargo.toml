[package]
name = "rbx_config"
version = "0.1.0"
edition = "2021"
publish = false

[dependencies]
anyhow = "1"
async-trait = "0.1"
clap = { version = "4", features = ["derive"] }
dotenv = "0.15"
env_logger = "0.11"
http = "1"
lazy_static = "1"
log = "0.4"
rbx_cookie = "*"
reqwest = { version = "0.12", default-features = false, features = ["cookies", "json", "rustls-tls"] }
reqwest-middleware = { version = "0.4", features = ["json"] }
reqwest-retry = "0.7"
serde = { version = "1", features = ["derive"] }
serde_json = "1"
tokio = { version = "1", features = ["macros", "rt-multi-thread", "sync", "time"] }
