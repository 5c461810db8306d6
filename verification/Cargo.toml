[package]
name = "scoutfile"
version = "0.1.0"
edition = "2021"
publish = false

[dependencies]
base64 = "=0.22.1"
chrono = "=0.4.45"
notify = "5"
notify-debouncer-mini = "0.2"
once_cell = "1"
regex = "=1.13.1"
reqwest = { version = "0.11", default-features = false, features = ["blocking", "json", "rustls-tls"] }
serde = { version = "1", features = ["derive"] }
serde_json = "1"
tokio = { version = "1", features = ["rt-multi-thread"] }
urlencoding = "=2.1.3"
uuid = { version = "1", features = ["v4"] }
