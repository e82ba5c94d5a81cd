[package]
name = "benchmark_suite"
version = "0.1.0"
edition = "2021"
publish = false

[dependencies]
sysinfo = "*"
rayon = "*"
num_cpus = "*"
serde = { version = "*", features = ["derive"] }
serde_json = "*"
chrono = "*"
uuid = { version = "*", features = ["v4"] }
