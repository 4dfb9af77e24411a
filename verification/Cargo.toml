[package]
name = "intiface_core"
version = "0.1.0"
edition = "2021"
publish = false

[dependencies]
buttplug = { version = "=5.0.1", default-features = false, features = ["dummy-runtime", "server", "serialize-json"] }
dirs = "=4.0.0"
octocrab = { version = "=0.15.4", default-features = false, features = ["rustls"] }
reqwest = { version = "=0.11.27", default-features = false, features = ["rustls-tls"] }
sentry = { version = "*", default-features = false }
serde = { version = "1", features = ["derive"] }
serde_json = "1"
thiserror = "1"
tokio = { version = "1", features = ["rt", "rt-multi-thread", "macros", "fs", "sync"] }
tracing = "0.1"
zip = { version = "=0.6.6", default-features = false, features = ["deflate"] }
