[package]
name = "join_gate"
version = "0.1.0"
edition = "2021"
publish = false

[dependencies]
dashmap = "=6.2.1"
teloxide = { version = "=0.17.0", default-features = false, features = ["rustls", "ctrlc_handler", "macros"] }
# Not used directly: holds teloxide-core's transitive dependency at the
# newest patch that this toolchain's rustc still accepts.
takecell = "=0.1.1"
tokio = { version = "=1.53.2", features = ["rt-multi-thread", "macros", "time", "signal", "sync"] }
axum = "=0.8.9"
reqwest = { version = "=0.12.28", default-features = false, features = ["json", "rustls-tls"] }
serde = { version = "=1.0.229", features = ["derive"] }
serde_json = "=1.0.151"
toml = "*"
humantime = "*"
log = "=0.4.34"
pretty_env_logger = "=0.5.0"
dotenvy = "=0.15.7"
