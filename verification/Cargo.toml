[package]
name = "telemetry_node"
version = "0.1.0"
edition = "2021"
publish = false

[dependencies]
anyhow = "*"
embedded-dht-rs = "*"
esp-idf-hal = "*"
esp-idf-svc = "*"
esp-idf-sys = "*"
heapless = "*"
log = "*"

[dev-dependencies]
serde_json = "1"
