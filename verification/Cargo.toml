[package]
name = "cement"
version = "1.0.0"
edition = "2021"
publish = false

[dependencies]
chrono = { version = "0.4", features = ["serde"] }
clap = { version = "4", features = ["derive"] }
diesel = { version = "2", features = ["sqlite", "r2d2", "chrono"] }
dotenvy = "0.15"
r2d2 = "0.8"
serde = { version = "1", features = ["derive"] }
serde_json = { version = "1", features = ["preserve_order"] }
