[package]
name = "nested_bench"
version = "0.1.0"
edition = "2021"
publish = false

[dependencies]
anyhow = "1"
clap = { version = "4", features = ["derive"] }
fs_extra = "1"
serde = { version = "1", features = ["derive"] }
serde_yaml = "0.9"
strum = "0.26"
strum_macros = "0.26"
