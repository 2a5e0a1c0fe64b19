[package]
name = "bluez_core"
version = "0.1.0"
edition = "2021"
publish = false

[dependencies]
uuid = "*"
dbus = "*"
blurz = "*"
serde = { version = "*", features = ["derive"] }
serde-xml-rs = "*"
thiserror = "*"
rumqttc = "*"
tokio = { version = "*", features = ["rt", "time", "macros"] }
futures = "*"
async-channel = "*"
log = "*"
pretty_env_logger = "*"
dotenv = "*"
color-backtrace = "*"
rustls = "*"
rustls-native-certs = "*"
