[package]
name = "mqtt_client"
version = "0.1.0"
edition = "2021"
publish = false

[dependencies]
fnv = "1"
mqtt3 = "*"
websocket = { version = "*", default-features = false, features = ["sync"] }
flate2 = "1"
mime = "0.3"
