[package]
name = "karma_core"
version = "0.1.0"
edition = "2021"
publish = false

[dependencies]
bcrypt = "=0.19.3"
once_cell = "=1.21.4"
serde = { version = "=1.0.229", features = ["derive"] }
sqlx = { version = "=0.9.0", default-features = false, features = ["runtime-tokio", "sqlite", "migrate"] }
tokio = { version = "=1.53.2", default-features = false, features = ["rt-multi-thread", "macros", "sync"] }
