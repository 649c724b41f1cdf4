[package]
name = "retag"
version = "0.1.0"
edition = "2021"
publish = false

[dependencies]
mlua = { version = "*", features = ["lua54", "vendored"] }
anyhow = "*"
serde = { version = "*", features = ["derive"] }
serde_yml = "*"
audiotags = "*"
