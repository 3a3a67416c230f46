[package]
name = "disk_telemetry"
version = "0.1.0"
edition = "2021"
publish = false

[dependencies]
dotenv = "0.15"
libsql = { version = "*", default-features = false, features = ["remote", "tls"] }
sysinfo = "*"
tokio = { version = "1", features = ["macros", "rt-multi-thread"] }
