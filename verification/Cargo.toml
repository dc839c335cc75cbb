[package]
name = "hypnagogic"
version = "0.1.0"
edition = "2021"
publish = false

[dependencies]
dmi = "*"
image = { version = "*", default-features = false, features = ["png"] }
serde = { version = "1", features = ["derive"] }
thiserror = "1"
tracing = "0.1"
user-error = "1"
