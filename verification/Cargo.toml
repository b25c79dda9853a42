[package]
name = "workout_util"
version = "0.1.0"
edition = "2021"
publish = false

[dependencies]
chrono = { version = "0.4", default-features = false, features = ["clock", "std", "serde"] }
eframe = { version = "0.32", default-features = false, features = ["glow", "default_fonts", "x11"] }
serde = { version = "1", features = ["derive"] }
sqlx = { version = "0.8", default-features = false, features = ["sqlite", "runtime-tokio", "chrono", "macros", "migrate", "json"] }
tokio = { version = "1", features = ["rt-multi-thread", "macros"] }
