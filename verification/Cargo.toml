[package]
name = "mahjong_core"
version = "0.1.0"
edition = "2021"
publish = false

[dependencies]
tokio = { version = "*", features = ["full"] }
serde = { version = "*", features = ["derive"] }
serde_cbor = "*"
mlua = { version = "*", features = ["lua54", "vendored"] }
async-trait = "*"
thiserror = "*"
