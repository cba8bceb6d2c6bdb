[package]
name = "git_service"
version = "0.1.0"
edition = "2021"
publish = false

[dependencies]
chrono = { version = "0.4", default-features = false, features = ["clock", "std", "serde"] }
dirs = "5"
git2 = { version = "0.18", default-features = false }
serde = { version = "1", features = ["derive"] }
tempfile = "3"
thiserror = "2"
tracing = "0.1"
ts-rs = "10"
