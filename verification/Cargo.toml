[package]
name = "fleetbench"
version = "0.1.0"
edition = "2021"
publish = false

[dependencies]
chrono = "0.4"
clap = { version = "4", features = ["derive"] }
serde = { version = "1", features = ["derive"] }
serde_json = "1"
sha2 = "0.10"
sysinfo = "0.32"
windows-sys = { version = "0.59", features = ["Win32_Foundation", "Win32_System_Performance"] }
