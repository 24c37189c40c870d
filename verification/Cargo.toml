[package]
name = "cpuinfo"
version = "0.1.0"
edition = "2021"
publish = false

[dependencies]
clap = { version = "*", features = ["derive"] }
core_affinity = "*"
kvm-bindings = "*"
kvm-ioctls = "*"
serde = { version = "*", features = ["derive"] }
serde_json = "*"
serde_yaml = "*"
