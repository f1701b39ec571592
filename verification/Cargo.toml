[package]
name = "remote_desktop"
version = "0.1.0"
edition = "2021"
publish = false

[dependencies]
anyhow = "=1.0.104"
arboard = { version = "=3.7.0", default-features = false }
argon2 = { version = "=0.5.3", features = ["std"] }
base64 = "=0.22.1"
clap = { version = "=4.6.7", features = ["derive"] }
core-foundation = "=0.10.1"
dashmap = "=5.5.3"
enigo = { version = "=0.2.1", default-features = false, features = ["x11rb"] }
image = { version = "=0.25.10", default-features = false, features = ["jpeg"] }
prost = "=0.13.5"
serde_json = "=1.0.154"
tokio = { version = "=1.54.1", features = ["full"] }
tokio-stream = "=0.1.19"
tonic = { version = "=0.12.3", features = ["tls-native-roots"] }
tracing = "=0.1.44"
tracing-subscriber = { version = "=0.3.23", features = ["env-filter"] }
turbojpeg = "=0.5.4"
uuid = { version = "=1.29.0", features = ["v4"] }
