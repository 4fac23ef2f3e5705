[package]
name = "host_telemetry"
version = "0.1.0"
edition = "2021"
publish = false

[dependencies]
sysinfo = "=0.30.13"
tokio = { version = "=1.53.2", features = ["time"] }
grammers-client = { version = "=0.10.0", features = ["html"] }
glass_pumpkin = "=2.0.0-rc0"
