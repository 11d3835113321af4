[package]
name = "astrodolph"
version = "0.1.0"
edition = "2021"
publish = false

[dependencies]
serenity = "0.10"
sqlx = { version = "0.5", default-features = false, features = ["runtime-tokio-rustls", "postgres"] }
tokio = { version = "1", features = ["macros", "rt-multi-thread", "signal"] }
dotenv = "0.15"
sentry = { version = "0.23", default-features = false }
tracing = "0.1"
tracing-subscriber = "0.3"
fasteval = "0.2"
