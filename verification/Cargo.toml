[package]
name = "ble_ledly"
version = "0.2.0"
edition = "2021"
publish = false

[dependencies]
async-trait = "=0.1.92"
btleplug = "=0.13.4"
libdbus-sys = { version = "=0.2.7", features = ["vendored"] }
thiserror = "=2.0.21"
tokio = { version = "=1.53.2", features = ["time"] }
uuid = "=1.27.0"
