[package]
name = "kterm"
version = "0.1.0"
edition = "2021"
publish = false

[dependencies]
bytemuck = { version = "1.25", features = ["derive"] }
bytes = "1.11"
chrono = { version = "0.4", default-features = false, features = ["clock"] }
env_logger = { version = "0.11", default-features = false }
futures = { version = "0.3", default-features = false, features = ["std", "async-await"] }
ironrdp = { version = "0.14", features = ["connector", "graphics", "pdu", "session"] }
ironrdp-cliprdr = "0.5"
ironrdp-core = "0.1"
ironrdp-dvc = "0.5"
ironrdp-input = "0.5"
ironrdp-rdpsnd = "0.7"
ironrdp-tls = { version = "0.2", default-features = false, features = ["rustls"] }
ironrdp-tokio = { version = "0.8", default-features = false }
log = "0.4"
nectar = "0.4"
portable-pty = "0.9"
serde = { version = "1", features = ["derive"] }
serde_json = "1"
tokio = { version = "1", features = ["rt-multi-thread", "macros", "sync", "net", "time", "io-util"] }
tokio-serial = { version = "5.4", default-features = false }
tokio-util = { version = "0.7", features = ["codec"] }
unicode-width = "0.2"
vnc-rs = "0.5"
vte = "0.15"
