[package]
name = "econ_sim"
version = "0.1.0"
edition = "2021"
publish = false

[dependencies]
futures = "0.3"
rand = "0.8"
sea-orm = { version = "*", features = ["sqlx-sqlite", "runtime-tokio-rustls"] }
tokio = { version = "*", features = ["macros", "rt"] }
