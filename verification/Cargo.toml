[package]
name = "p2p"
version = "0.1.0"
edition = "2021"
publish = false

[dependencies]
chrono = "=0.4.45"
data-encoding = "=2.11.1"
ed25519-dalek = { version = "=2.2.0", features = ["pkcs8"] }
rand = "=0.6.5"
serde = { version = "=1.0.229", features = ["derive"] }
serde_json = "=1.0.154"
unicode-width = "=0.2.0"
clap = { version = "=4.6.7", features = ["derive"] }
tokio = { version = "=1.54.1", features = ["full"] }
tokio-util = { version = "=0.7.20", features = ["codec"] }
futures = "=0.3.34"
termcolor = "=1.4.1"
markdown = { version = "=1.0.0", features = ["serde"] }
toml = "=0.8.23"
ratatui = "=0.29.0"
reqwest = { version = "=0.12.28", default-features = false, features = ["json", "stream", "rustls-tls"] }
quinn = { version = "=0.11.12", default-features = false, features = ["runtime-tokio", "rustls-ring", "log"] }
rustls = { version = "=0.23.46", default-features = false, features = ["ring", "std", "logging", "tls12"] }
hyparview = "=0.1.3"
plumtree = "=0.1.1"
dashmap = "=6.2.1"
stun_codec = "=0.3.5"
bytecodec = "=0.4.15"
tracing = "=0.1.44"
tracing-subscriber = "=0.3.23"
log = "=0.4.35"
