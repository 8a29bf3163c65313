[package]
name = "toy_engine"
version = "0.1.0"
edition = "2021"
publish = false

[dependencies]
rustc-hash = "*"
csv = "*"
serde = { version = "*", features = ["derive"] }
clap = { version = "*", features = ["derive"] }
rust_decimal = "*"
thiserror = "*"
