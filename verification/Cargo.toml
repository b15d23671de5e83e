[package]
name = "ocpp_session"
version = "0.1.0"
edition = "2021"
publish = false

[dependencies]
chrono = { version = "=0.4.45", features = ["serde"] }
rust-ocpp = { version = "0.4", default-features = false, features = ["v1_6"] }
serde = { version = "=1.0.229", features = ["derive"] }
strum_macros = "=0.25.3"
