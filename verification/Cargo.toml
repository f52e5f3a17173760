[package]
name = "cargo_test_annotations"
version = "0.1.0"
edition = "2021"
publish = false

[dependencies]
regex = "=1.13.1"
cargo_metadata = "=0.15.4"
chrono = "=0.4.45"
miette = "=5.10.0"
octocrab = "=0.47.1"
serde = { version = "=1.0.229", features = ["derive"] }
serde_json = "=1.0.154"
thiserror = "=1.0.69"
tokio = { version = "=1.54.1", features = ["macros", "rt-multi-thread"] }
