[package]
name = "pza-plugin-std"
version = "0.1.0"
edition = "2021"
publish = false

[dependencies]
async-trait = "=0.1.92"
bytes = "=1.12.1"
chrono = "=0.4.45"
colored = "=3.1.1"
rumqttc = "=0.25.1"
serde = { version = "=1.0.229", features = ["derive"] }
serde_json = "=1.0.154"
serial2-tokio = "=0.1.26"
tokio = { version = "=1.54.1", features = ["full"] }
tokio-serial = { version = "=5.5.0", default-features = false }
