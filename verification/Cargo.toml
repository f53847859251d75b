[package]
name = "laing_controller"
version = "0.1.0"
edition = "2021"
publish = false

[dependencies]
anyhow = "*"
env_logger = "*"
log = "*"
pin-project = "*"
rumqttc = "*"
rustls-native-certs = "*"
serde = { version = "*", features = ["derive"] }
serde_json = "*"
serde_yaml = "*"
tokio = { version = "*", features = ["full"] }
tokio-modbus = "*"
tokio-serial = "*"
