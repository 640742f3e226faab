[package]
name = "mqtt_client"
version = "0.1.0"
edition = "2021"
publish = false

[dependencies]
serde_json = "*"
paho-mqtt = { version = "*", default-features = false }
tokio = { version = "*", features = ["rt"] }
futures-util = "*"
