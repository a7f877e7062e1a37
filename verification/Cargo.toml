[package]
name = "tinap"
version = "0.1.0"
edition = "2021"
publish = false

[dependencies]
opaque-ke = { version = "3", features = ["argon2"] }
argon2 = "0.5"
rand = "0.8"
generic-array = "0.14"
pants-gen = "*"
bincode = "1"
serde = { version = "1", features = ["derive"] }
thiserror = "1"
boring-derive = "*"
tokio = { version = "1", features = ["full"] }
fastwebsockets = { version = "0.8", features = ["upgrade", "with_axum"] }
axum = "0.7"
hyper = "1"
hyper-util = { version = "0.1", features = ["tokio"] }
http-body-util = "0.1"
sled = "0.34"
inquire = "0.7"
