[package]
name = "uncanny"
version = "0.1.0"
edition = "2021"
publish = false

[dependencies]
anyhow = "1"
arc-swap = "1"
clap = { version = "4", features = ["derive"] }
indicatif = "0.17"
llama-cpp-4 = "*"
num_cpus = "1"
serde = { version = "1", features = ["derive"] }
serde_json = "1"
sha2 = "0.10"
sysinfo = "0.30"
thiserror = "1"
toml = "0.8"
