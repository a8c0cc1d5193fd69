[package]
name = "lio_timetable"
version = "0.1.0"
edition = "2021"
publish = false

[dependencies]
chrono = { version = "*", default-features = false, features = ["std", "alloc", "clock"] }
axum = "*"
tokio = { version = "*", features = ["rt-multi-thread", "macros", "net"] }
reqwest = { version = "*", default-features = false, features = ["json"] }
serde = { version = "*", features = ["derive"] }
csv = "*"
uuid = { version = "*", features = ["v4"] }
