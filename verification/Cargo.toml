[package]
name = "modbus_gateway"
version = "0.1.0"
edition = "2021"
publish = false

[dependencies]
futures = "*"
log = "*"
serde_json = "*"
serde_yaml = "*"
simple_logger = "*"
tokio = { version = "*", features = ["full"] }
tokio-modbus = "*"
tokio-serial = "*"
zmq = "*"
