[package]
name = "cadenza_shell"
version = "0.1.0"
edition = "2021"
publish = false

[dependencies]
anyhow = "1"
bluer = { version = "0.17", features = ["bluetoothd"] }
chrono = "0.4"
csv = "1"
dirs = "6"
futures-lite = "2"
inotify = "0.11"
log = "0.4"
serde = { version = "1", features = ["derive"] }
serde_json = "1"
tokio = { version = "1", features = ["rt-multi-thread", "macros", "time", "sync", "io-util", "net"] }
tracing = "0.1"
tracing-subscriber = { version = "0.3", features = ["env-filter"] }
udev = "0.9"
zbus = { version = "5", default-features = false, features = ["tokio"] }
