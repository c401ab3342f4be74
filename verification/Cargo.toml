[package]
name = "blog_backend"
version = "0.1.0"
edition = "2021"
publish = false

[dependencies]
chrono = "0.4"
dotenv = "0.15"
prost-types = "*"
serde = { version = "1", features = ["derive"] }
sqlx = { version = "0.8", default-features = false, features = ["postgres", "runtime-tokio", "chrono", "macros"] }
thiserror = "1"
tokio = { version = "1", features = ["rt-multi-thread", "macros"] }
tonic = "*"
tracing = "0.1"
tracing-subscriber = "0.3"
