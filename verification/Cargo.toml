[package]
name = "gamegen"
version = "0.1.0"
edition = "2021"
publish = false

[dependencies]
shakmaty = "0.26"
anyhow = "1"
dotenvy = "0.15"
tokio = { version = "1", features = ["full"] }
sqlx = { version = "0.7", default-features = false, features = ["postgres", "runtime-tokio", "uuid"] }
uuid = "1"
