[package]
name = "qa_store"
version = "0.1.0"
edition = "2021"
publish = false

[dependencies]
async-trait = "*"
dotenvy = "*"
log = "*"
pretty_env_logger = "*"
sqlx = { version = "*", default-features = false, features = ["runtime-tokio", "postgres"] }
tokio = { version = "*", features = ["rt-multi-thread", "macros"] }
