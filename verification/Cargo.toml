[package]
name = "cargo_gpu"
version = "0.1.0"
edition = "2021"
publish = false

[dependencies]
anyhow = "*"
cargo_metadata = "*"
clap = { version = "*", features = ["derive"] }
crossterm = "*"
directories = "*"
env_logger = "*"
log = "*"
semver = "*"
serde = { version = "*", features = ["derive"] }
serde_json = "*"
spirv-builder = { version = "*", default-features = false }
rustc_codegen_spirv-target-specs = { version = "*", features = ["include_str"] }
