[package]
name = "carbon"
version = "0.1.0"
edition = "2021"
publish = false

[dependencies]
sha1 = "=0.10.7"
sha2 = "=0.10.9"
md-5 = "=0.10.6"
hex = "=0.4.3"
markdown = "=1.0.0"
tokio = { version = "=1.54.1", features = ["fs", "io-util", "sync", "rt", "time"] }
reqwest = { version = "=0.11.27", features = ["stream", "json"] }
reqwest-middleware = "=0.2.5"
reqwest-retry = "=0.3.0"
futures = "=0.3.34"
tracing = "=0.1.44"
thiserror = "=1.0.69"
anyhow = "=1.0.104"
libc = "=0.2.191"
errno = "=0.3.14"
uuid = { version = "=1.29.0", features = ["serde"] }
serde = { version = "=1.0.229", features = ["derive"] }
winapi = { version = "0.3", features = ["wincon", "winuser", "consoleapi"] }
