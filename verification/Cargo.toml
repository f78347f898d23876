[package]
name = "task_functions"
version = "0.1.0"
edition = "2021"
publish = false

[dependencies]
sqlparser = "*"
regex = "*"
serde_yaml = "*"
indexmap = "*"
chrono = "*"
rustfft = "*"
log = "*"
