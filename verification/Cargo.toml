[package]
name = "pocketstation"
version = "1.1.8"
edition = "2021"
publish = false

[dependencies]
rtrb = "0.3"
serde = { version = "=1.0.229", features = ["derive"] }
thiserror = "=2.0.21"
