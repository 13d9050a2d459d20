[package]
name = "youtinerary-auth"
version = "0.1.0"
edition = "2021"
publish = false

[dependencies]
oauth2 = "=4.4.2"
headers = "=0.4.2"
async-session = "=3.0.0"
serde = { version = "=1.0.229", features = ["derive"] }
serde_json = "=1.0.154"
axum = "=0.7.9"
redis = { version = "=0.24.1", features = ["tokio-comp"] }
reqwest = { version = "=0.11.27", default-features = false, features = ["rustls-tls"] }
tokio = { version = "=1.54.1", features = ["macros", "rt-multi-thread", "net"] }
anyhow = "=1.0.104"
tracing = "=0.1.44"
tracing-subscriber = { version = "=0.3.23", features = ["env-filter"] }
tracing-bunyan-formatter = "=0.3.11"
